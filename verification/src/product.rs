//! Product listings: the domain type, the creation payload with its
//! validation rule, and slug derivation from a product name.

use vstd::prelude::*;
use crate::text::{is_blank, push_char, spec_is_blank};

verus! {

/// Publication status of a listing.
#[derive(Debug, Clone, Copy, PartialEq, Eq, Structural)]
pub enum ProductStatus {
    Draft,
    Published,
    Archived,
}

/// Who may see a listing.
#[derive(Debug, Clone, Copy, PartialEq, Eq, Structural)]
pub enum Visibility {
    LocalOnly,
    Public,
    Both,
}

/// A persisted product row.
///
/// Prices are integer minor-currency units; dates are days since the Unix
/// epoch; timestamps are seconds since the Unix epoch.  The boundary layer
/// converts to and from its own calendar and decimal types.
#[derive(Debug, Clone)]
pub struct Product {
    pub id: String,
    pub farmer_id: String,
    pub farm_id: Option<String>,
    pub name: String,
    pub slug: String,
    pub description: Option<String>,
    pub category: String,
    pub unit: String,
    pub tags: Vec<String>,
    pub price_cents: i64,
    pub currency_code: String,
    pub min_order_qty: i32,
    pub quantity_available: i32,
    pub organic: bool,
    pub perishable: bool,
    pub expected_harvest_date: Option<i64>,
    pub expiry_date: Option<i64>,
    pub status: ProductStatus,
    pub visibility: Visibility,
    pub images: Vec<String>,
    pub created_at: i64,
    pub updated_at: i64,
}

/// Payload for creating a new product.  The store generates the id, the
/// timestamps, and, when `slug` is absent, the slug itself.
#[derive(Debug, Clone)]
pub struct NewProduct {
    pub farmer_id: String,
    pub farm_id: Option<String>,
    pub name: String,
    pub slug: Option<String>,
    pub description: Option<String>,
    pub category: String,
    pub unit: String,
    pub tags: Vec<String>,
    pub price_cents: i64,
    pub currency_code: Option<String>,
    pub min_order_qty: i32,
    pub quantity_available: i32,
    pub organic: bool,
    pub perishable: bool,
    pub expected_harvest_date: Option<i64>,
    pub expiry_date: Option<i64>,
    pub status: Option<ProductStatus>,
    pub visibility: Option<Visibility>,
    pub images: Vec<String>,
}

impl Default for NewProduct {
    /// An empty draft payload: zero price, minimum order of one, metric
    /// unit, uncategorized.
    fn default() -> (p: NewProduct)
        ensures
            p.farmer_id@ == Seq::<char>::empty(),
            p.farm_id is None,
            p.name@ == Seq::<char>::empty(),
            p.slug is None,
            p.description is None,
            p.category@ == "uncategorized"@,
            p.unit@ == "kg"@,
            p.tags@ == Seq::<String>::empty(),
            p.price_cents == 0,
            p.currency_code matches Some(c) && c@ == "NGN"@,
            p.min_order_qty == 1,
            p.quantity_available == 0,
            !p.organic,
            !p.perishable,
            p.expected_harvest_date is None,
            p.expiry_date is None,
            p.status == Some(ProductStatus::Draft),
            p.visibility == Some(Visibility::Both),
            p.images@ == Seq::<String>::empty(),
    {
        NewProduct {
            farmer_id: String::new(),
            farm_id: None,
            name: String::new(),
            slug: None,
            description: None,
            category: "uncategorized".to_owned(),
            unit: "kg".to_owned(),
            tags: Vec::new(),
            price_cents: 0,
            currency_code: Some("NGN".to_owned()),
            min_order_qty: 1,
            quantity_available: 0,
            organic: false,
            perishable: false,
            expected_harvest_date: None,
            expiry_date: None,
            status: Some(ProductStatus::Draft),
            visibility: Some(Visibility::Both),
            images: Vec::new(),
        }
    }
}

/// The message rejecting `p`, or `None` when the payload is acceptable:
/// name, category and unit must not be blank, the price must not be
/// negative, and the minimum order quantity must be strictly positive.
pub open spec fn product_validation_message(p: NewProduct) -> Option<Seq<char>> {
    if spec_is_blank(p.name@) {
        Some("Product name is required"@)
    } else if spec_is_blank(p.category@) {
        Some("Category name is required"@)
    } else if spec_is_blank(p.unit@) {
        Some("Unit name is required"@)
    } else if p.price_cents < 0 {
        Some("Price_cents must be >= 0"@)
    } else if p.min_order_qty <= 0 {
        Some("Quantity available must be >= 0"@)
    } else {
        None
    }
}

/// Checks a creation payload, reporting the first violated rule.
pub fn validate_new_product(p: &NewProduct) -> (r: Result<(), String>)
    ensures
        r is Ok <==> product_validation_message(*p) is None,
        r matches Err(m) ==> product_validation_message(*p) == Some(m@),
{
    if is_blank(p.name.as_str()) {
        return Err("Product name is required".to_owned());
    }
    if is_blank(p.category.as_str()) {
        return Err("Category name is required".to_owned());
    }
    if is_blank(p.unit.as_str()) {
        return Err("Unit name is required".to_owned());
    }
    if p.price_cents < 0 {
        return Err("Price_cents must be >= 0".to_owned());
    }
    if p.min_order_qty <= 0 {
        return Err("Quantity available must be >= 0".to_owned());
    }
    Ok(())
}

/// An ASCII letter or digit.
pub open spec fn is_ascii_alnum(c: char) -> bool {
    ('a' <= c && c <= 'z') || ('A' <= c && c <= 'Z') || ('0' <= c && c <= '9')
}

/// ASCII lowercasing of a single character.
pub open spec fn lower_char(c: char) -> char {
    if 'A' <= c && c <= 'Z' {
        (((c as u8) + 32) as char)
    } else {
        c
    }
}

/// Per-character slug mapping: letters and digits are lowercased, every
/// other character becomes a hyphen.
pub open spec fn slug_map_char(c: char) -> char {
    if is_ascii_alnum(c) {
        lower_char(c)
    } else {
        '-'
    }
}

/// Collapses runs of hyphens in `s[i..]` to single hyphens; `prev_dash`
/// records whether the previous emitted character was a hyphen.
pub open spec fn collapse_from(s: Seq<char>, i: int, prev_dash: bool) -> Seq<char>
    decreases s.len() - i,
{
    if i < 0 || i >= s.len() {
        Seq::empty()
    } else if s[i] == '-' {
        if prev_dash {
            collapse_from(s, i + 1, true)
        } else {
            seq!['-'] + collapse_from(s, i + 1, true)
        }
    } else {
        seq![s[i]] + collapse_from(s, i + 1, false)
    }
}

pub open spec fn drop_leading_dashes(s: Seq<char>) -> Seq<char>
    decreases s.len(),
{
    if s.len() > 0 && s[0] == '-' {
        drop_leading_dashes(s.drop_first())
    } else {
        s
    }
}

pub open spec fn drop_trailing_dashes(s: Seq<char>) -> Seq<char>
    decreases s.len(),
{
    if s.len() > 0 && s.last() == '-' {
        drop_trailing_dashes(s.drop_last())
    } else {
        s
    }
}

/// The slug derived from a product name: lowercase the ASCII letters, turn
/// every character that is not an ASCII letter or digit into a hyphen,
/// collapse consecutive hyphens, and trim hyphens from both ends.
pub open spec fn slug_of(s: Seq<char>) -> Seq<char> {
    drop_trailing_dashes(drop_leading_dashes(collapse_from(
        s.map_values(|c: char| slug_map_char(c)),
        0,
        false,
    )))
}

proof fn lemma_drop_leading_is_skip(s: Seq<char>, k: int)
    requires
        0 <= k <= s.len(),
        forall|j: int| 0 <= j < k ==> s[j] == '-',
        k < s.len() ==> s[k] != '-',
    ensures
        drop_leading_dashes(s) == s.skip(k),
    decreases k,
{
    if k == 0 {
        assert(s.skip(0) =~= s);
    } else {
        let t = s.drop_first();
        assert(forall|j: int| 0 <= j < k - 1 ==> t[j] == '-');
        lemma_drop_leading_is_skip(t, k - 1);
        assert(t.skip(k - 1) =~= s.skip(k));
    }
}

proof fn lemma_drop_trailing_is_take(s: Seq<char>, e: int)
    requires
        0 <= e <= s.len(),
        forall|j: int| e <= j < s.len() ==> s[j] == '-',
        e > 0 ==> s[e - 1] != '-',
    ensures
        drop_trailing_dashes(s) == s.take(e),
    decreases s.len() - e,
{
    if e == s.len() {
        assert(s.take(e) =~= s);
    } else {
        let t = s.drop_last();
        assert(forall|j: int| e <= j < t.len() ==> t[j] == '-');
        lemma_drop_trailing_is_take(t, e);
        assert(t.take(e) =~= s.take(e));
    }
}

fn lower_exec(c: char) -> (r: char)
    ensures
        r == lower_char(c),
{
    let u = c as u32;
    if 65 <= u && u <= 90 {
        (((u + 32) as u8) as char)
    } else {
        c
    }
}

fn slug_map_exec(c: char) -> (r: char)
    ensures
        r == slug_map_char(c),
{
    let u = c as u32;
    if (97 <= u && u <= 122) || (65 <= u && u <= 90) || (48 <= u && u <= 57) {
        lower_exec(c)
    } else {
        '-'
    }
}

/// Derives the URL-safe slug for a product name.
pub fn slugify(name: &str) -> (r: String)
    ensures
        r@ == slug_of(name@),
{
    let ghost m = name@.map_values(|c: char| slug_map_char(c));

    // Map each character, collapsing hyphen runs on the fly.
    let n = name.unicode_len();
    let mut collapsed: Vec<char> = Vec::new();
    let mut prev_dash = false;
    let mut i: usize = 0;
    while i < n
        invariant
            0 <= i <= n,
            n == name@.len(),
            m == name@.map_values(|c: char| slug_map_char(c)),
            collapse_from(m, 0, false) == collapsed@ + collapse_from(m, i as int, prev_dash),
            prev_dash ==> collapsed@.len() > 0 && collapsed@.last() == '-',
        decreases n - i,
    {
        let c = slug_map_exec(name.get_char(i));
        assert(m[i as int] == slug_map_char(name@[i as int]));
        if c == '-' {
            if !prev_dash {
                collapsed.push('-');
            }
            prev_dash = true;
        } else {
            collapsed.push(c);
            prev_dash = false;
        }
        proof {
            assert(collapse_from(m, 0, false) =~= collapsed@ + collapse_from(
                m,
                i + 1 as int,
                prev_dash,
            ));
        }
        i = i + 1;
    }
    assert(collapsed@ =~= collapse_from(m, 0, false));

    // Trim hyphens from both ends of the collapsed sequence.
    let len = collapsed.len();
    let mut start: usize = 0;
    while start < len && collapsed[start] == '-'
        invariant
            0 <= start <= len,
            len == collapsed@.len(),
            forall|j: int| 0 <= j < start ==> collapsed@[j] == '-',
        decreases len - start,
    {
        start = start + 1;
    }
    let mut end: usize = len;
    while end > start && collapsed[end - 1] == '-'
        invariant
            start <= end <= len,
            len == collapsed@.len(),
            forall|j: int| end <= j < len ==> collapsed@[j] == '-',
        decreases end,
    {
        end = end - 1;
    }
    proof {
        lemma_drop_leading_is_skip(collapsed@, start as int);
        let skipped = collapsed@.skip(start as int);
        assert(forall|j: int| end - start <= j < skipped.len() ==> skipped[j] == '-');
        lemma_drop_trailing_is_take(skipped, end - start);
    }

    // Copy the trimmed range into the result.
    let mut r = String::new();
    let mut k: usize = start;
    while k < end
        invariant
            start <= k <= end <= len,
            len == collapsed@.len(),
            r@ == collapsed@.subrange(start as int, k as int),
        decreases end - k,
    {
        push_char(&mut r, collapsed[k]);
        assert(r@ =~= collapsed@.subrange(start as int, k + 1 as int));
        k = k + 1;
    }
    proof {
        assert(collapsed@.subrange(start as int, end as int) =~= collapsed@.skip(
            start as int,
        ).take(end - start));
    }
    r
}

} // verus!
