//! The settings that are kept: whether the location decides, and which
//! networks are trusted.

use vstd::prelude::*;
use crate::location::text::{chars_of, trim_bounds, trimmed};
use crate::location::types::{is_listed, texts_of};

verus! {

/// The name of the store the settings are kept in.
pub const STORE_NAME: &'static str = "location-connectivity";

/// A setting.
#[derive(Clone, Copy, Debug, PartialEq, Eq, Hash, Structural)]
pub enum StoreKey {
    LocationBasedEnabled,
    TrustedSsids,
}

impl StoreKey {
    /// The name of the setting in the store.
    pub open spec fn spec_as_str(&self) -> Seq<char> {
        match self {
            StoreKey::LocationBasedEnabled => "location_based_enabled"@,
            StoreKey::TrustedSsids => "trusted_ssids"@,
        }
    }

    pub fn as_str(&self) -> (name: &'static str)
        ensures
            name@ == self.spec_as_str(),
    {
        match self {
            StoreKey::LocationBasedEnabled => "location_based_enabled",
            StoreKey::TrustedSsids => "trusted_ssids",
        }
    }

    /// The setting of the given name.
    pub fn parse(name: &str) -> (key: Option<StoreKey>)
        ensures
            key == if name@ == "location_based_enabled"@ {
                Some(StoreKey::LocationBasedEnabled)
            } else if name@ == "trusted_ssids"@ {
                Some(StoreKey::TrustedSsids)
            } else {
                None
            },
    {
        let wanted = String::from_str(name);
        if wanted == String::from_str("location_based_enabled") {
            Some(StoreKey::LocationBasedEnabled)
        } else if wanted == String::from_str("trusted_ssids") {
            Some(StoreKey::TrustedSsids)
        } else {
            None
        }
    }
}

/// The setting that holds where none is stored: the location does not
/// decide.
pub fn location_based_enabled_or_default(stored: Option<bool>) -> (enabled: bool)
    ensures
        enabled == (stored == Some(true)),
{
    match stored {
        Some(enabled) => enabled,
        None => false,
    }
}

/// The names of `list` other than `ssid`, in their order.
pub open spec fn others(list: Seq<Seq<char>>, ssid: Seq<char>) -> Seq<Seq<char>>
    decreases list.len(),
{
    if list.len() == 0 {
        Seq::empty()
    } else if list.last() == ssid {
        others(list.drop_last(), ssid)
    } else {
        others(list.drop_last(), ssid).push(list.last())
    }
}

/// Nothing but `ssid` leaves the list, and `ssid` leaves it altogether.
pub proof fn law_removal_takes_only_the_named_network(
    list: Seq<Seq<char>>,
    ssid: Seq<char>,
    name: Seq<char>,
)
    ensures
        others(list, ssid).contains(name) <==> (list.contains(name) && name != ssid),
    decreases list.len(),
{
    if list.len() > 0 {
        let front = list.drop_last();
        law_removal_takes_only_the_named_network(front, ssid, name);
        if list.contains(name) {
            let i = choose|i: int| 0 <= i < list.len() && list[i] == name;
            if i < list.len() - 1 {
                assert(front[i] == name);
            }
        }
        if front.contains(name) {
            let i = choose|i: int| 0 <= i < front.len() && front[i] == name;
            assert(list[i] == name);
        }
        if list.last() != ssid {
            let kept = others(front, ssid);
            let all = kept.push(list.last());
            if kept.contains(name) {
                let i = choose|i: int| 0 <= i < kept.len() && kept[i] == name;
                assert(all[i] == name);
            }
            if all.contains(name) {
                let i = choose|i: int| 0 <= i < all.len() && all[i] == name;
                if i < kept.len() {
                    assert(kept[i] == name);
                } else {
                    assert(list[list.len() - 1] == name);
                }
            }
            if name == list.last() {
                assert(all[kept.len() as int] == name);
                assert(list[list.len() - 1] == name);
            }
        }
    }
}

/// Adds `ssid` to the trusted networks unless it is one already; says
/// whether the list changed and so has to be stored.
pub fn add_trusted_ssid(ssids: &mut Vec<String>, ssid: String) -> (added: bool)
    ensures
        added == !texts_of(old(ssids)@).contains(ssid@),
        texts_of(final(ssids)@) == if added {
            texts_of(old(ssids)@).push(ssid@)
        } else {
            texts_of(old(ssids)@)
        },
{
    if is_listed(ssids, &ssid) {
        false
    } else {
        ssids.push(ssid);
        true
    }
}

/// Takes every occurrence of `ssid` out of the trusted networks; the others
/// keep their order.
pub fn remove_trusted_ssid(ssids: &mut Vec<String>, ssid: &String)
    ensures
        texts_of(final(ssids)@) == others(texts_of(old(ssids)@), ssid@),
{
    let mut kept: Vec<String> = Vec::new();
    let mut i: usize = 0;
    while i < ssids.len()
        invariant
            i <= ssids@.len(),
            texts_of(kept@) == others(texts_of(ssids@).take(i as int), ssid@),
        decreases ssids@.len() - i,
    {
        assert(texts_of(ssids@).take(i as int + 1).drop_last() =~= texts_of(ssids@).take(
            i as int,
        ));
        if !(ssids[i] == *ssid) {
            kept.push(ssids[i].clone());
        }
        i = i + 1;
    }
    assert(texts_of(ssids@).take(i as int) =~= texts_of(ssids@));
    *ssids = kept;
}

/// Why a network cannot be added to the trusted ones.
pub const EMPTY_SSID_MESSAGE: &'static str = "SSID cannot be empty";

/// Checks the name of a network that is to be trusted: it must hold more
/// than white space.
pub fn check_new_ssid(ssid: &str) -> (checked: Result<(), String>)
    ensures
        checked is Ok <==> trimmed(ssid@).len() > 0,
        checked matches Err(message) ==> message@ == EMPTY_SSID_MESSAGE@,
{
    let chars = chars_of(ssid);
    let (start, end) = trim_bounds(&chars);
    if start == end {
        Err(String::from_str(EMPTY_SSID_MESSAGE))
    } else {
        Ok(())
    }
}

} // verus!
