//! The configured set of liquidity-provider wallet addresses.

use vstd::prelude::*;

use crate::address::{parse_address, parsed_address_of, Address};

verus! {

/// The identifier bytes of every entry in a list of addresses.
pub open spec fn entry_views(entries: Seq<Address>) -> Seq<Seq<u8>> {
    entries.map_values(|a: Address| a@)
}

/// An immutable set of wallet addresses, loaded once at startup.
/// Membership queries are pure; nothing is added or removed after load.
pub struct Watchlist {
    entries: Vec<Address>,
}

impl View for Watchlist {
    type V = Set<Seq<u8>>;

    closed spec fn view(&self) -> Set<Seq<u8>> {
        entry_views(self.entries@).to_set()
    }
}

impl Watchlist {
    /// Builds a watchlist holding exactly the given addresses.
    pub fn from_entries(entries: Vec<Address>) -> (r: Watchlist)
        ensures
            r@ == entry_views(entries@).to_set(),
    {
        Watchlist { entries }
    }

    /// Builds a watchlist from the outcome of reading a configuration
    /// source. A failed or malformed read (`None`) degrades to an empty
    /// watchlist, which filters nothing, rather than aborting.
    pub fn load(parsed: Option<Vec<Address>>) -> (r: Watchlist)
        ensures
            parsed matches Some(entries) ==> r@ == entry_views(entries@).to_set(),
            parsed is None ==> r@ == Set::<Seq<u8>>::empty(),
    {
        match parsed {
            Some(entries) => Watchlist { entries },
            None => {
                let r = Watchlist { entries: Vec::new() };
                proof {
                    assert(r@ =~= Set::<Seq<u8>>::empty());
                }
                r
            },
        }
    }

    /// Pure membership query: true exactly when the address was among
    /// the entries the watchlist was loaded with.
    pub fn contains(&self, a: &Address) -> (r: bool)
        ensures
            r <==> self@.contains(a@),
    {
        let n = self.entries.len();
        let mut i: usize = 0;
        while i < n
            invariant
                0 <= i <= n,
                n == self.entries@.len(),
                forall|j: int| 0 <= j < i ==> self.entries@[j]@ != a@,
            decreases n - i,
        {
            if self.entries[i].same_as(a) {
                proof {
                    assert(entry_views(self.entries@)[i as int] == a@);
                    assert(entry_views(self.entries@).contains(a@));
                }
                return true;
            }
            i += 1;
        }
        proof {
            assert(forall|j: int|
                0 <= j < entry_views(self.entries@).len()
                    ==> entry_views(self.entries@)[j] != a@);
            assert(!entry_views(self.entries@).contains(a@));
        }
        false
    }

    /// True exactly when at least one of the given addresses is a member.
    pub fn any_in(&self, addrs: &Vec<Address>) -> (r: bool)
        ensures
            r <==> exists|i: int| 0 <= i < addrs@.len() && self@.contains(addrs@[i]@),
    {
        let n = addrs.len();
        let mut i: usize = 0;
        while i < n
            invariant
                0 <= i <= n,
                n == addrs@.len(),
                forall|j: int| 0 <= j < i ==> !self@.contains(addrs@[j]@),
            decreases n - i,
        {
            if self.contains(&addrs[i]) {
                return true;
            }
            i += 1;
        }
        false
    }
}

/// The address set a list of well-formed configuration entries denotes.
pub open spec fn parsed_entry_set(entries: Seq<String>) -> Set<Seq<u8>> {
    Set::new(
        |b: Seq<u8>|
            exists|i: int| 0 <= i < entries.len() && parsed_address_of(entries[i]@) == Some(b),
    )
}

/// Whether every configuration entry is a well-formed address string.
pub open spec fn all_entries_parse(entries: Seq<String>) -> bool {
    forall|i: int| 0 <= i < entries.len() ==> parsed_address_of(#[trigger] entries[i]@) is Some
}

/// Builds the watchlist from the address strings read out of the
/// configuration source: the set those strings denote when every entry
/// is well-formed, and the empty watchlist — which filters nothing —
/// when the read failed (`None`) or any entry is malformed. Never an
/// abort: configuration errors are non-fatal by design.
pub fn load_from_strings(parsed: Option<Vec<String>>) -> (r: Watchlist)
    ensures
        parsed matches Some(entries) ==> all_entries_parse(entries@) ==> r@ == parsed_entry_set(
            entries@,
        ),
        parsed matches Some(entries) ==> !all_entries_parse(entries@) ==> r@ == Set::<
            Seq<u8>,
        >::empty(),
        parsed is None ==> r@ == Set::<Seq<u8>>::empty(),
{
    if parsed.is_none() {
        empty_watchlist()
    } else {
        let entries = parsed.unwrap();
        let n = entries.len();
        let mut out: Vec<Address> = Vec::new();
        let mut i: usize = 0;
        while i < n
            invariant
                parsed == Some(entries),
                0 <= i <= n,
                n == entries@.len(),
                out@.len() == i,
                forall|j: int| 0 <= j < i ==> parsed_address_of(#[trigger] entries@[j]@) is Some,
                forall|j: int|
                    0 <= j < i ==> Some(#[trigger] out@[j]@) == parsed_address_of(entries@[j]@),
            decreases n - i,
        {
            match parse_address(entries[i].as_str()) {
                Some(a) => {
                    out.push(a);
                },
                None => {
                    proof {
                        assert(parsed_address_of(entries@[i as int]@) is None);
                        assert(!all_entries_parse(entries@));
                    }
                    return empty_watchlist();
                },
            }
            i += 1;
        }
        let r = Watchlist { entries: out };
        proof {
            assert forall|b: Seq<u8>|
                r@.contains(b) == parsed_entry_set(entries@).contains(b) by {
                if r@.contains(b) {
                    let j = choose|j: int|
                        0 <= j < entry_views(out@).len() && entry_views(out@)[j] == b;
                    assert(out@[j]@ == b);
                    assert(parsed_address_of(entries@[j]@) == Some(b));
                }
                if parsed_entry_set(entries@).contains(b) {
                    let j = choose|j: int|
                        0 <= j < entries@.len() && parsed_address_of(entries@[j]@) == Some(b);
                    assert(entry_views(out@)[j] == b);
                    assert(entry_views(out@).contains(b));
                }
            }
            assert(r@ =~= parsed_entry_set(entries@));
        }
        r
    }
}

/// Builds the watchlist that holds nothing.
fn empty_watchlist() -> (r: Watchlist)
    ensures
        r@ == Set::<Seq<u8>>::empty(),
{
    let r = Watchlist { entries: Vec::new() };
    proof {
        assert(r@ =~= Set::<Seq<u8>>::empty());
    }
    r
}

/// Membership in a loaded watchlist is decided by the backing entry list
/// alone: an address is a member exactly when some entry carries its
/// bytes, so every address outside the list is rejected and every listed
/// address is accepted.
pub proof fn lemma_watchlist_membership(entries: Seq<Address>, a: Seq<u8>)
    ensures
        entry_views(entries).to_set().contains(a) <==> exists|i: int|
            0 <= i < entries.len() && entries[i]@ == a,
{
    if entry_views(entries).to_set().contains(a) {
        let i = choose|i: int| 0 <= i < entry_views(entries).len() && entry_views(entries)[i] == a;
        assert(entries[i]@ == a);
    }
    if exists|i: int| 0 <= i < entries.len() && entries[i]@ == a {
        let i = choose|i: int| 0 <= i < entries.len() && entries[i]@ == a;
        assert(entry_views(entries)[i] == a);
        assert(entry_views(entries).contains(a));
    }
}

} // verus!
