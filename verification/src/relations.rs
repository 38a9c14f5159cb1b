//! Copying a remote account's followers and follows: the counts taken from
//! its collections, which collection items are looked up, and the follows
//! that are stored.
use vstd::prelude::*;
use crate::text::{opt_view, str_eq, strings_view};

verus! {

/// An optional id in which an absent id matches nothing, not even another
/// absent id: items without an id are never taken for one another.
pub enum NonMatchingOption {
    Missing,
    Known(String),
}

/// Whether two optional ids name the same thing: both present and equal.
pub open spec fn ids_match(a: Option<Seq<char>>, b: Option<Seq<char>>) -> bool {
    match (a, b) {
        (Some(x), Some(y)) => x == y,
        _ => false,
    }
}

impl NonMatchingOption {
    pub open spec fn id(&self) -> Option<Seq<char>> {
        match self {
            NonMatchingOption::Missing => None,
            NonMatchingOption::Known(s) => Some(s@),
        }
    }

    pub fn from(o: Option<String>) -> (r: NonMatchingOption)
        ensures
            r.id() == opt_view(o),
    {
        match o {
            Some(s) => NonMatchingOption::Known(s),
            None => NonMatchingOption::Missing,
        }
    }

    /// Whether both hold an id, and the same one.
    pub fn eq(&self, other: &NonMatchingOption) -> (r: bool)
        ensures
            r == ids_match(self.id(), other.id()),
    {
        match self {
            NonMatchingOption::Missing => false,
            NonMatchingOption::Known(s) => match other {
                NonMatchingOption::Missing => false,
                NonMatchingOption::Known(o) => str_eq(s.as_str(), o.as_str()),
            },
        }
    }
}

/// Whether the item at `i` is looked up: it has no id, or no earlier item
/// has the same id.
pub open spec fn first_of_its_id(ids: Seq<Option<Seq<char>>>, i: int) -> bool {
    forall|j: int| 0 <= j < i ==> !ids_match(#[trigger] ids[j], ids[i])
}

/// The positions of the items looked up among the first `n`, in order.
pub open spec fn looked_up(ids: Seq<Option<Seq<char>>>, n: int) -> Seq<usize>
    decreases n,
{
    if n <= 0 {
        Seq::empty()
    } else if first_of_its_id(ids, n - 1) {
        looked_up(ids, n - 1).push((n - 1) as usize)
    } else {
        looked_up(ids, n - 1)
    }
}

pub open spec fn opt_views(v: Seq<Option<String>>) -> Seq<Option<Seq<char>>> {
    v.map_values(|o: Option<String>| opt_view(o))
}

/// The positions of the collection items to look up: items are taken once
/// per id, the first of them, and every item without an id is taken.
pub fn items_to_look_up(ids: &Vec<Option<String>>) -> (r: Vec<usize>)
    ensures
        r@ == looked_up(opt_views(ids@), ids@.len() as int),
{
    let ghost view = opt_views(ids@);
    let mut keys: Vec<NonMatchingOption> = Vec::new();
    let mut out: Vec<usize> = Vec::new();
    let mut i: usize = 0;
    while i < ids.len()
        invariant
            i <= ids.len(),
            view == opt_views(ids@),
            keys@.len() == i,
            forall|j: int| 0 <= j < i ==> (#[trigger] keys@[j]).id() == view[j],
            out@ == looked_up(view, i as int),
        decreases ids.len() - i,
    {
        let key = NonMatchingOption::from(ids[i].clone());
        assert(key.id() == view[i as int]);
        let mut seen = false;
        let mut j: usize = 0;
        while j < i
            invariant
                j <= i,
                i < ids.len(),
                keys@.len() == i,
                key.id() == view[i as int],
                forall|k: int| 0 <= k < i ==> (#[trigger] keys@[k]).id() == view[k],
                seen == exists|k: int| 0 <= k < j && ids_match(#[trigger] view[k], view[i as int]),
            decreases i - j,
        {
            if keys[j].eq(&key) {
                seen = true;
            }
            j = j + 1;
        }
        if !seen {
            out.push(i);
        }
        keys.push(key);
        i = i + 1;
    }
    out
}

/// The count stored for a collection: its `totalItems` where it gives one,
/// cut to 32 bits as the stored column is, and the old count otherwise.
pub fn collection_count(total: Option<u64>, old: i32) -> (r: i32)
    ensures
        r == (match total {
            Some(t) => t as i32,
            None => old,
        }),
{
    match total {
        Some(t) => t as i32,
        None => old,
    }
}

/// Why the relations of an account could not be copied.
#[derive(Clone, Copy, Debug, PartialEq, Eq, Structural)]
pub enum RelationsError {
    /// The followers collection was named but could not be fetched.
    FollowersUnavailable,
    /// The following collection was named but could not be fetched.
    FollowingUnavailable,
}

/// The check after fetching the collections: each one named must have come.
pub fn relations_fetched(
    asked_followers: bool, got_followers: bool, asked_following: bool, got_following: bool,
) -> (r: Option<RelationsError>)
    ensures
        r == (if asked_followers && !got_followers {
            Some(RelationsError::FollowersUnavailable)
        } else if asked_following && !got_following {
            Some(RelationsError::FollowingUnavailable)
        } else {
            None
        }),
{
    if asked_followers && !got_followers {
        Some(RelationsError::FollowersUnavailable)
    } else if asked_following && !got_following {
        Some(RelationsError::FollowingUnavailable)
    } else {
        None
    }
}

/// The account found for an id: the first pair that has it.
pub open spec fn found_account(found: Seq<(Seq<char>, u128)>, id: Seq<char>) -> Option<u128>
    decreases found.len(),
{
    if found.len() == 0 {
        None
    } else if found[0].0 == id {
        Some(found[0].1)
    } else {
        found_account(found.drop_first(), id)
    }
}

/// The follows `(follower, followee)` that a list of ids gives: with
/// `inbound`, each found account follows `account`; otherwise `account`
/// follows each found account. Ids with no account found give none.
pub open spec fn follows_of(account: u128, ids: Seq<Seq<char>>, found: Seq<(Seq<char>, u128)>, inbound: bool) -> Seq<(u128, u128)>
    decreases ids.len(),
{
    if ids.len() == 0 {
        Seq::empty()
    } else {
        let rest = follows_of(account, ids.drop_last(), found, inbound);
        match found_account(found, ids.last()) {
            Some(a) => rest.push(if inbound { (a, account) } else { (account, a) }),
            None => rest,
        }
    }
}

pub open spec fn found_view(found: Seq<(String, u128)>) -> Seq<(Seq<char>, u128)> {
    found.map_values(|p: (String, u128)| (p.0@, p.1))
}

fn find_account_id(found: &Vec<(String, u128)>, id: &String) -> (r: Option<u128>)
    ensures
        r == found_account(found_view(found@), id@),
{
    let ghost fv = found_view(found@);
    let mut i: usize = 0;
    proof {
        assert(fv.skip(0) =~= fv);
    }
    while i < found.len()
        invariant
            i <= found.len(),
            fv == found_view(found@),
            found_account(fv, id@) == found_account(fv.skip(i as int), id@),
        decreases found.len() - i,
    {
        proof {
            assert(fv.skip(i as int).drop_first() =~= fv.skip(i + 1));
        }
        if str_eq(found[i].0.as_str(), id.as_str()) {
            return Some(found[i].1);
        }
        i = i + 1;
    }
    proof {
        assert(fv.skip(found.len() as int) =~= Seq::<(Seq<char>, u128)>::empty());
    }
    None
}

fn push_follows(out: &mut Vec<(u128, u128)>, account: u128, ids: &Vec<String>, found: &Vec<(String, u128)>, inbound: bool)
    ensures
        final(out)@ == old(out)@ + follows_of(account, strings_view(ids@), found_view(found@), inbound),
{
    let ghost iv = strings_view(ids@);
    let mut i: usize = 0;
    proof {
        assert(iv.take(0) =~= Seq::<Seq<char>>::empty());
        assert(out@ =~= old(out)@ + Seq::<(u128, u128)>::empty());
    }
    while i < ids.len()
        invariant
            i <= ids.len(),
            iv == strings_view(ids@),
            out@ == old(out)@ + follows_of(account, iv.take(i as int), found_view(found@), inbound),
        decreases ids.len() - i,
    {
        proof {
            assert(iv.take(i + 1).drop_last() =~= iv.take(i as int));
            assert(iv.take(i + 1).last() == ids@[i as int]@);
        }
        let ghost before = out@;
        match find_account_id(found, &ids[i]) {
            Some(a) => {
                if inbound {
                    out.push((a, account));
                } else {
                    out.push((account, a));
                }
                proof {
                    assert(out@ =~= before.push(if inbound { (a, account) } else { (account, a) }));
                }
            },
            None => {},
        }
        proof {
            assert(out@ =~= old(out)@ + follows_of(account, iv.take(i + 1), found_view(found@), inbound));
        }
        i = i + 1;
    }
    proof {
        assert(iv.take(ids.len() as int) =~= iv);
    }
}

/// The follows stored for `account` from its collections: those of its
/// followers first, then those it follows, each an id of the collection
/// for which an account was found.
pub fn relation_follows(
    account: u128, followers: &Option<Vec<String>>, following: &Option<Vec<String>>, found: &Vec<(String, u128)>,
) -> (r: Vec<(u128, u128)>)
    ensures
        r@ == (match followers {
            Some(f) => follows_of(account, strings_view(f@), found_view(found@), true),
            None => Seq::empty(),
        }) + (match following {
            Some(f) => follows_of(account, strings_view(f@), found_view(found@), false),
            None => Seq::empty(),
        }),
{
    let mut out: Vec<(u128, u128)> = Vec::new();
    match followers {
        Some(f) => push_follows(&mut out, account, f, found, true),
        None => {},
    }
    let ghost mid = out@;
    match following {
        Some(f) => push_follows(&mut out, account, f, found, false),
        None => {
            assert(out@ =~= mid + Seq::<(u128, u128)>::empty());
        },
    }
    proof {
        match followers {
            Some(_) => {},
            None => {
                assert(mid =~= Seq::<(u128, u128)>::empty());
            },
        }
    }
    out
}

/// Each looked-up position is within the list, the positions rise, and
/// no two looked-up items share an id.
pub proof fn lemma_looked_up_distinct(ids: Seq<Option<Seq<char>>>, n: int, a: int, b: int)
    requires
        0 <= n <= ids.len() <= usize::MAX,
        0 <= a < b < looked_up(ids, n).len(),
    ensures
        looked_up(ids, n)[a] < looked_up(ids, n)[b] < n,
        !ids_match(ids[looked_up(ids, n)[a] as int], ids[looked_up(ids, n)[b] as int]),
    decreases n,
{
    lemma_looked_up_bounded(ids, n);
    if n > 0 {
        let prev = looked_up(ids, n - 1);
        if b < prev.len() {
            lemma_looked_up_distinct(ids, n - 1, a, b);
        } else {
            lemma_looked_up_bounded(ids, n - 1);
            assert(looked_up(ids, n)[b] == n - 1);
            assert(looked_up(ids, n)[a] == prev[a]);
            let ka = prev[a] as int;
            assert(first_of_its_id(ids, n - 1));
            assert(0 <= ka < n - 1);
            assert(!ids_match(ids[ka], ids[n - 1]));
        }
    }
}

proof fn lemma_first_is_looked_up(ids: Seq<Option<Seq<char>>>, n: int, i: int)
    requires
        0 <= i < n <= ids.len() <= usize::MAX,
        first_of_its_id(ids, i),
    ensures
        looked_up(ids, n).contains(i as usize),
    decreases n,
{
    let prev = looked_up(ids, n - 1);
    if i == n - 1 {
        assert(looked_up(ids, n) == prev.push((n - 1) as usize));
        assert(looked_up(ids, n)[prev.len() as int] == i as usize);
    } else {
        lemma_first_is_looked_up(ids, n - 1, i);
        let k = choose|k: int| 0 <= k < prev.len() && prev[k] == i as usize;
        if first_of_its_id(ids, n - 1) {
            assert(looked_up(ids, n)[k] == prev[k]);
        }
        assert(looked_up(ids, n)[k] == i as usize);
    }
}

/// Nothing is lost by taking each id once: every item of the first `n` is
/// looked up itself, or has the id of an earlier item that is.
pub proof fn lemma_looked_up_covers(ids: Seq<Option<Seq<char>>>, n: int, i: int)
    requires
        0 <= i < n <= ids.len() <= usize::MAX,
    ensures
        looked_up(ids, n).contains(i as usize)
            || exists|j: int| 0 <= j < i && looked_up(ids, n).contains(j as usize) && ids_match(ids[j], #[trigger] ids[i]),
    decreases i,
{
    if first_of_its_id(ids, i) {
        lemma_first_is_looked_up(ids, n, i);
    } else {
        let j = choose|j: int| 0 <= j < i && ids_match(#[trigger] ids[j], ids[i]);
        lemma_looked_up_covers(ids, n, j);
        if looked_up(ids, n).contains(j as usize) {
        } else {
            let j2 = choose|j2: int| 0 <= j2 < j && looked_up(ids, n).contains(j2 as usize) && ids_match(ids[j2], #[trigger] ids[j]);
            assert(ids_match(ids[j2], ids[i]));
        }
    }
}

proof fn lemma_looked_up_bounded(ids: Seq<Option<Seq<char>>>, n: int)
    requires
        0 <= n <= ids.len() <= usize::MAX,
    ensures
        forall|k: int| 0 <= k < looked_up(ids, n).len() ==> 0 <= #[trigger] looked_up(ids, n)[k] < n,
    decreases n,
{
    if n > 0 {
        lemma_looked_up_bounded(ids, n - 1);
        let prev = looked_up(ids, n - 1);
        assert forall|k: int| 0 <= k < looked_up(ids, n).len() implies 0 <= #[trigger] looked_up(ids, n)[k] < n by {
            if k < prev.len() {
                assert(looked_up(ids, n)[k] == prev[k]);
            }
        }
    }
}

} // verus!
