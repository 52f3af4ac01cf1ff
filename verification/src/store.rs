//! The persistent state the workflows act on, modelled in memory: the
//! farmer, farm, OTP-challenge and product tables, with the two unique
//! keys the store enforces (farmer phone number, product slug) and the
//! lookup and cleanup operations the workflows share.

use vstd::prelude::*;
use crate::farmer::{Farm, Farmer};
use crate::product::Product;
use crate::verification::PhoneVerification;

verus! {

/// The whole store.  Rows are kept in creation order; the position of a
/// row in its vector plays the role of the creation timestamp ordering.
pub struct Store {
    pub farmers: Vec<Farmer>,
    pub farms: Vec<Farm>,
    pub verifications: Vec<PhoneVerification>,
    pub products: Vec<Product>,
}

/// No two farmers share a phone number.
pub open spec fn phones_unique(fs: Seq<Farmer>) -> bool {
    forall|i: int, j: int|
        0 <= i < j < fs.len() ==> #[trigger] fs[i].phone_number@ != #[trigger] fs[j].phone_number@
}

/// No two products share a slug.
pub open spec fn slugs_unique(ps: Seq<Product>) -> bool {
    forall|i: int, j: int| 0 <= i < j < ps.len() ==> #[trigger] ps[i].slug@ != #[trigger] ps[j].slug@
}

/// Some farmer is registered under this phone number.
pub open spec fn has_farmer_phone(fs: Seq<Farmer>, phone: Seq<char>) -> bool {
    exists|i: int| 0 <= i < fs.len() && #[trigger] fs[i].phone_number@ == phone
}

/// Some product already carries this slug.
pub open spec fn slug_taken(ps: Seq<Product>, slug: Seq<char>) -> bool {
    exists|i: int| 0 <= i < ps.len() && #[trigger] ps[i].slug@ == slug
}

impl Store {
    /// The store's invariant: both unique keys hold.
    pub open spec fn wf(self) -> bool {
        phones_unique(self.farmers@) && slugs_unique(self.products@)
    }

    /// An empty store.
    pub fn new() -> (s: Store)
        ensures
            s.wf(),
            s.farmers@ == Seq::<Farmer>::empty(),
            s.farms@ == Seq::<Farm>::empty(),
            s.verifications@ == Seq::<PhoneVerification>::empty(),
            s.products@ == Seq::<Product>::empty(),
    {
        Store { farmers: Vec::new(), farms: Vec::new(), verifications: Vec::new(), products: Vec::new() }
    }
}

/// The index of the most recently created OTP row for `phone`, or -1 when
/// none exists.
pub open spec fn latest_for(vs: Seq<PhoneVerification>, phone: Seq<char>) -> int
    decreases vs.len(),
{
    if vs.len() == 0 {
        -1
    } else if vs.last().phone_number@ == phone {
        vs.len() - 1
    } else {
        latest_for(vs.drop_last(), phone)
    }
}

/// What `latest_for` finds: the last matching row, or nothing to find.
pub proof fn lemma_latest_for(vs: Seq<PhoneVerification>, phone: Seq<char>)
    ensures
        -1 <= latest_for(vs, phone) < vs.len(),
        latest_for(vs, phone) >= 0 ==> vs[latest_for(vs, phone)].phone_number@ == phone,
        forall|j: int|
            latest_for(vs, phone) < j < vs.len() ==> #[trigger] vs[j].phone_number@ != phone,
    decreases vs.len(),
{
    if vs.len() > 0 && vs.last().phone_number@ != phone {
        lemma_latest_for(vs.drop_last(), phone);
        assert forall|j: int| latest_for(vs, phone) < j < vs.len() implies #[trigger] vs[j].phone_number@
            != phone by {
            if j < vs.len() - 1 {
                assert(vs.drop_last()[j].phone_number@ != phone);
                assert(vs[j] == vs.drop_last()[j]);
            }
        }
        if latest_for(vs, phone) >= 0 {
            assert(vs[latest_for(vs, phone)] == vs.drop_last()[latest_for(vs, phone)]);
        }
    }
}

/// A row that matches and is followed by no match is the latest one.
pub proof fn lemma_latest_for_unique(vs: Seq<PhoneVerification>, phone: Seq<char>, i: int)
    requires
        0 <= i < vs.len(),
        vs[i].phone_number@ == phone,
        forall|j: int| i < j < vs.len() ==> #[trigger] vs[j].phone_number@ != phone,
    ensures
        latest_for(vs, phone) == i,
    decreases vs.len(),
{
    if i < vs.len() - 1 {
        assert(forall|j: int| 0 <= j < vs.len() - 1 ==> vs[j] == #[trigger] vs.drop_last()[j]);
        lemma_latest_for_unique(vs.drop_last(), phone, i);
    }
}

/// The index of the farmer registered under `phone` (the first match), or
/// -1 when none is.
pub open spec fn farmer_index(fs: Seq<Farmer>, phone: Seq<char>) -> int
    decreases fs.len(),
{
    if fs.len() == 0 {
        -1
    } else if fs[0].phone_number@ == phone {
        0
    } else {
        let r = farmer_index(fs.drop_first(), phone);
        if r == -1 {
            -1
        } else {
            r + 1
        }
    }
}

/// What `farmer_index` finds: the first matching farmer, or nothing.
pub proof fn lemma_farmer_index(fs: Seq<Farmer>, phone: Seq<char>)
    ensures
        -1 <= farmer_index(fs, phone) < fs.len(),
        farmer_index(fs, phone) == -1 ==> !has_farmer_phone(fs, phone),
        farmer_index(fs, phone) >= 0 ==> fs[farmer_index(fs, phone)].phone_number@ == phone,
    decreases fs.len(),
{
    if fs.len() > 0 && fs[0].phone_number@ != phone {
        let t = fs.drop_first();
        lemma_farmer_index(t, phone);
        assert(forall|j: int| 0 <= j < t.len() ==> #[trigger] t[j] == fs[j + 1]);
        if farmer_index(t, phone) == -1 {
            if has_farmer_phone(fs, phone) {
                let i = choose|i: int|
                    0 <= i < fs.len() && #[trigger] fs[i].phone_number@ == phone;
                assert(t[i - 1].phone_number@ == phone);
                assert(has_farmer_phone(t, phone));
            }
        } else {
            assert(fs[farmer_index(fs, phone)] == t[farmer_index(t, phone)]);
        }
    }
}

/// Under a unique-phone store, any matching index is the farmer's index.
pub proof fn lemma_farmer_index_unique(fs: Seq<Farmer>, phone: Seq<char>, i: int)
    requires
        phones_unique(fs),
        0 <= i < fs.len(),
        fs[i].phone_number@ == phone,
    ensures
        farmer_index(fs, phone) == i,
{
    lemma_farmer_index(fs, phone);
    let r = farmer_index(fs, phone);
    assert(has_farmer_phone(fs, phone));
    if r < i {
        assert(fs[r].phone_number@ != fs[i].phone_number@);
    } else if r > i {
        assert(fs[i].phone_number@ != fs[r].phone_number@);
    }
}

/// Some farm belongs to this farmer.
pub open spec fn has_farm_for(farms: Seq<Farm>, farmer_id: Seq<char>) -> bool {
    exists|i: int| 0 <= i < farms.len() && #[trigger] farms[i].farmer_id@ == farmer_id
}

/// The index of the first farm belonging to this farmer, or -1.
pub open spec fn farm_index_for(farms: Seq<Farm>, farmer_id: Seq<char>) -> int
    decreases farms.len(),
{
    if farms.len() == 0 {
        -1
    } else if farms[0].farmer_id@ == farmer_id {
        0
    } else {
        let r = farm_index_for(farms.drop_first(), farmer_id);
        if r == -1 {
            -1
        } else {
            r + 1
        }
    }
}

/// What `farm_index_for` finds: the first farm of the farmer, or nothing.
pub proof fn lemma_farm_index_for(farms: Seq<Farm>, farmer_id: Seq<char>)
    ensures
        -1 <= farm_index_for(farms, farmer_id) < farms.len(),
        farm_index_for(farms, farmer_id) == -1 ==> !has_farm_for(farms, farmer_id),
        farm_index_for(farms, farmer_id) >= 0 ==> farms[farm_index_for(farms, farmer_id)].farmer_id@
            == farmer_id && (forall|j: int|
            0 <= j < farm_index_for(farms, farmer_id) ==> #[trigger] farms[j].farmer_id@
                != farmer_id),
    decreases farms.len(),
{
    if farms.len() > 0 && farms[0].farmer_id@ != farmer_id {
        let t = farms.drop_first();
        lemma_farm_index_for(t, farmer_id);
        assert(forall|j: int| 0 <= j < t.len() ==> #[trigger] t[j] == farms[j + 1]);
        if farm_index_for(t, farmer_id) == -1 {
            if has_farm_for(farms, farmer_id) {
                let i = choose|i: int|
                    0 <= i < farms.len() && #[trigger] farms[i].farmer_id@ == farmer_id;
                assert(t[i - 1].farmer_id@ == farmer_id);
                assert(has_farm_for(t, farmer_id));
            }
        } else {
            let r = farm_index_for(farms, farmer_id);
            assert(farms[r] == t[r - 1]);
            assert forall|j: int| 0 <= j < r implies #[trigger] farms[j].farmer_id@ != farmer_id by {
                if j > 0 {
                    assert(t[j - 1] == farms[j]);
                    assert(t[j - 1].farmer_id@ != farmer_id);
                }
            }
        }
    }
}

/// Finds the first farm belonging to this farmer.
pub fn find_farm_index(farms: &Vec<Farm>, farmer_id: &String) -> (r: Option<usize>)
    ensures
        r matches Some(i) ==> farm_index_for(farms@, farmer_id@) == i,
        r is None ==> farm_index_for(farms@, farmer_id@) == -1,
{
    let n = farms.len();
    let mut i: usize = 0;
    while i < n
        invariant
            0 <= i <= n,
            n == farms@.len(),
            forall|j: int| 0 <= j < i ==> #[trigger] farms@[j].farmer_id@ != farmer_id@,
        decreases n - i,
    {
        if farms[i].farmer_id == *farmer_id {
            proof {
                lemma_farm_index_for(farms@, farmer_id@);
                let r = farm_index_for(farms@, farmer_id@);
                if r < i as int {
                    assert(farms@[r].farmer_id@ != farmer_id@);
                }
            }
            return Some(i);
        }
        i = i + 1;
    }
    proof {
        lemma_farm_index_for(farms@, farmer_id@);
        let r = farm_index_for(farms@, farmer_id@);
        if r >= 0 {
            assert(farms@[r].farmer_id@ != farmer_id@);
        }
    }
    None
}

/// A row survives the cleanup run for `phone` at time `now` unless it
/// belongs to that phone and already expired.
pub open spec fn keeps_row(v: PhoneVerification, phone: Seq<char>, now: int) -> bool {
    !(v.phone_number@ == phone && v.expires_at < now)
}

/// The OTP rows left after deleting the expired rows of `phone`.
pub open spec fn purge_expired(vs: Seq<PhoneVerification>, phone: Seq<char>, now: int) -> Seq<
    PhoneVerification,
> {
    vs.filter(|v: PhoneVerification| keeps_row(v, phone, now))
}

proof fn lemma_filter_cons<A>(x: A, s: Seq<A>, pred: spec_fn(A) -> bool)
    ensures
        (seq![x] + s).filter(pred) == if pred(x) {
            seq![x] + s.filter(pred)
        } else {
            s.filter(pred)
        },
    decreases s.len(),
{
    reveal(Seq::filter);
    let c = seq![x] + s;
    if s.len() == 0 {
        assert(c.drop_last() =~= Seq::<A>::empty());
        assert(c.last() == x);
        assert(Seq::<A>::empty().filter(pred) == Seq::<A>::empty());
        assert(s.filter(pred) == Seq::<A>::empty());
        if pred(x) {
            assert(c.filter(pred) == Seq::<A>::empty().filter(pred).push(x));
            assert(c.filter(pred) =~= seq![x] + s.filter(pred));
        } else {
            assert(c.filter(pred) == Seq::<A>::empty().filter(pred));
        }
    } else {
        assert(c.drop_last() =~= seq![x] + s.drop_last());
        assert(c.last() == s.last());
        lemma_filter_cons(x, s.drop_last(), pred);
        let fd = s.drop_last().filter(pred);
        assert(s.filter(pred) == if pred(s.last()) {
            fd.push(s.last())
        } else {
            fd
        });
        assert(c.filter(pred) == if pred(s.last()) {
            c.drop_last().filter(pred).push(s.last())
        } else {
            c.drop_last().filter(pred)
        });
        if pred(x) {
            assert(c.drop_last().filter(pred) == seq![x] + fd);
            if pred(s.last()) {
                assert((seq![x] + fd).push(s.last()) =~= seq![x] + fd.push(s.last()));
            }
        }
    }
}

/// Deletes the rows of `phone` whose expiry has passed; other rows keep
/// their relative order.
pub fn purge_expired_rows(vs: &mut Vec<PhoneVerification>, phone: &String, now: i64)
    ensures
        final(vs)@ == purge_expired(old(vs)@, phone@, now as int),
{
    let ghost pred = |v: PhoneVerification| keeps_row(v, phone@, now as int);
    let mut i: usize = vs.len();
    proof {
        assert(old(vs)@.skip(i as int) =~= Seq::<PhoneVerification>::empty());
        assert(vs@ =~= old(vs)@.take(i as int) + old(vs)@.skip(i as int).filter(pred));
    }
    while i > 0
        invariant
            0 <= i <= old(vs)@.len(),
            vs@ == old(vs)@.take(i as int) + old(vs)@.skip(i as int).filter(pred),
            pred == (|v: PhoneVerification| keeps_row(v, phone@, now as int)),
        decreases i,
    {
        i = i - 1;
        proof {
            assert(old(vs)@.skip(i as int) =~= seq![old(vs)@[i as int]] + old(vs)@.skip(i + 1));
            lemma_filter_cons(old(vs)@[i as int], old(vs)@.skip(i + 1), pred);
        }
        assert(vs@[i as int] == old(vs)@[i as int]);
        let expired = vs[i].expires_at < now && vs[i].phone_number == *phone;
        if expired {
            vs.remove(i);
            proof {
                assert(vs@ =~= old(vs)@.take(i as int) + old(vs)@.skip(i as int).filter(pred));
            }
        } else {
            proof {
                assert(vs@ =~= old(vs)@.take(i as int) + old(vs)@.skip(i as int).filter(pred));
            }
        }
    }
    proof {
        assert(old(vs)@.skip(0) =~= old(vs)@);
        assert(old(vs)@.take(0) =~= Seq::<PhoneVerification>::empty());
        assert(vs@ =~= purge_expired(old(vs)@, phone@, now as int));
    }
}

/// Finds the farmer registered under `phone`.
pub fn find_farmer_index(farmers: &Vec<Farmer>, phone: &String) -> (r: Option<usize>)
    ensures
        r matches Some(i) ==> i < farmers@.len() && farmers@[i as int].phone_number@ == phone@,
        r is Some <==> has_farmer_phone(farmers@, phone@),
{
    let n = farmers.len();
    let mut i: usize = 0;
    while i < n
        invariant
            0 <= i <= n,
            n == farmers@.len(),
            forall|j: int| 0 <= j < i ==> #[trigger] farmers@[j].phone_number@ != phone@,
        decreases n - i,
    {
        if farmers[i].phone_number == *phone {
            return Some(i);
        }
        i = i + 1;
    }
    None
}

/// Finds the most recently created OTP row for `phone`.
pub fn find_latest_verification(vs: &Vec<PhoneVerification>, phone: &String) -> (r: Option<usize>)
    ensures
        r matches Some(i) ==> latest_for(vs@, phone@) == i,
        r is None ==> latest_for(vs@, phone@) == -1,
{
    let mut i: usize = vs.len();
    while i > 0
        invariant
            0 <= i <= vs@.len(),
            forall|j: int| i <= j < vs@.len() ==> #[trigger] vs@[j].phone_number@ != phone@,
        decreases i,
    {
        i = i - 1;
        if vs[i].phone_number == *phone {
            proof {
                lemma_latest_for_unique(vs@, phone@, i as int);
            }
            return Some(i);
        }
    }
    proof {
        lemma_latest_for(vs@, phone@);
    }
    None
}

/// Whether some product already carries `slug`.
pub fn slug_exists(ps: &Vec<Product>, slug: &String) -> (b: bool)
    ensures
        b == slug_taken(ps@, slug@),
{
    let n = ps.len();
    let mut i: usize = 0;
    while i < n
        invariant
            0 <= i <= n,
            n == ps@.len(),
            forall|j: int| 0 <= j < i ==> #[trigger] ps@[j].slug@ != slug@,
        decreases n - i,
    {
        if ps[i].slug == *slug {
            return true;
        }
        i = i + 1;
    }
    false
}

} // verus!
