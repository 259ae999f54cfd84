//! Property lists of the language server: properties sorted by name, and the
//! source ranges where they are defined.
use vstd::prelude::*;
use vstd::string::*;

verus! {

/// Where a property is declared.
#[derive(Clone, Debug)]
pub struct DeclarationInformation {
    pub uri: String,
    pub character_offset: u32,
}

/// A property of an element.
#[derive(Clone, Debug)]
pub struct PropertyInformation {
    pub name: String,
    pub property_type: String,
    pub declared_at: Option<DeclarationInformation>,
    /// The range in the element's source file where the property is bound.
    pub defined_at: Option<(u32, u32)>,
}

/// `a` comes before `b` in the order of `str`: at the first position where
/// they differ, `a` has the smaller character, or `a` is a proper prefix of
/// `b`.
pub open spec fn name_lt(a: Seq<char>, b: Seq<char>) -> bool {
    exists|i: int|
        #![trigger a.take(i), b.take(i)]
        0 <= i <= a.len() && i <= b.len() && a.take(i) == b.take(i) && ((i == a.len() && i
            < b.len()) || (i < a.len() && i < b.len() && (a[i] as u32) < (b[i] as u32)))
}

/// The properties are sorted by name (equal names may repeat).
pub open spec fn sorted_by_name(p: Seq<PropertyInformation>) -> bool {
    forall|i: int, j: int| 0 <= i < j < p.len() ==> !name_lt(#[trigger] p[j].name@, #[trigger] p[i].name@)
}

/// How two names compare.
#[derive(Clone, Copy, Debug, PartialEq, Eq, Structural)]
pub enum NameOrder {
    Less,
    Equal,
    Greater,
}

proof fn lemma_not_lt_at(a: Seq<char>, b: Seq<char>, i: int)
    requires
        0 <= i <= a.len(),
        i <= b.len(),
        a.take(i) == b.take(i),
        i == b.len() || (i < a.len() && (b[i] as u32) < (a[i] as u32)),
    ensures
        !name_lt(a, b),
{
    if name_lt(a, b) {
        let k = choose|k: int|
            #![trigger a.take(k), b.take(k)]
            0 <= k <= a.len() && k <= b.len() && a.take(k) == b.take(k) && ((k == a.len() && k
                < b.len()) || (k < a.len() && k < b.len() && (a[k] as u32) < (b[k] as u32)));
        if k < i {
            assert(a.take(i)[k] == a[k]);
            assert(b.take(i)[k] == b[k]);
            assert(a.take(i)[k] == b.take(i)[k]);
        } else if k > i {
            assert(a.take(k)[i] == b.take(k)[i]);
            assert(a[i] == b[i]);
        }
    }
}

/// Compares two names in the order of `str`.
pub fn compare_names(a: &str, b: &str) -> (r: NameOrder)
    ensures
        (r == NameOrder::Less) == name_lt(a@, b@),
        (r == NameOrder::Greater) == name_lt(b@, a@),
        (r == NameOrder::Equal) == (a@ == b@),
{
    let a_len = a.unicode_len();
    let b_len = b.unicode_len();
    let mut i: usize = 0;
    while i < a_len && i < b_len
        invariant
            a_len == a@.len(),
            b_len == b@.len(),
            i <= a_len,
            i <= b_len,
            a@.take(i as int) == b@.take(i as int),
        decreases a_len - i,
    {
        let ca = a.get_char(i);
        let cb = b.get_char(i);
        if ca != cb {
            proof {
                assert((ca as u32) != (cb as u32));
            }
            if (ca as u32) < (cb as u32) {
                proof {
                    lemma_not_lt_at(b@, a@, i as int);
                    assert(a@ != b@) by {
                        assert(a@[i as int] != b@[i as int]);
                    }
                }
                return NameOrder::Less;
            } else {
                proof {
                    lemma_not_lt_at(a@, b@, i as int);
                    assert(a@ != b@) by {
                        assert(a@[i as int] != b@[i as int]);
                    }
                }
                return NameOrder::Greater;
            }
        }
        proof {
            assert(a@.take(i + 1) =~= a@.take(i as int).push(ca));
            assert(b@.take(i + 1) =~= b@.take(i as int).push(cb));
        }
        i = i + 1;
    }
    if a_len < b_len {
        proof {
            assert(a@.take(i as int) =~= a@);
            lemma_not_lt_at(b@, a@, i as int);
        }
        NameOrder::Less
    } else if b_len < a_len {
        proof {
            assert(b@.take(i as int) =~= b@);
            lemma_not_lt_at(a@, b@, i as int);
        }
        NameOrder::Greater
    } else {
        proof {
            assert(a@.take(i as int) =~= a@);
            assert(b@.take(i as int) =~= b@);
            lemma_not_lt_at(a@, b@, i as int);
            lemma_not_lt_at(b@, a@, i as int);
        }
        NameOrder::Equal
    }
}

/// Records `range` as where `property` is defined. The properties are sorted
/// by name and one of them is named `property`; if several are, one of them
/// gets the range.
pub fn insert_property_definition_range(
    property: &str,
    properties: &mut Vec<PropertyInformation>,
    range: (u32, u32),
)
    requires
        sorted_by_name(old(properties)@),
        exists|i: int| 0 <= i < old(properties)@.len() && #[trigger] old(properties)@[i].name@ == property@,
    ensures
        exists|i: int|
            0 <= i < old(properties)@.len() && #[trigger] old(properties)@[i].name@ == property@
                && final(properties)@ == old(properties)@.update(
                i,
                PropertyInformation { defined_at: Some(range), ..old(properties)@[i] },
            ),
{
    let mut lo: usize = 0;
    let mut hi: usize = properties.len();
    let mut found: usize = 0;
    let mut searching = true;
    while searching
        invariant
            properties@ == old(properties)@,
            sorted_by_name(properties@),
            searching ==> lo <= hi <= properties@.len(),
            searching ==> exists|j: int| lo <= j < hi && #[trigger] properties@[j].name@ == property@,
            !searching ==> found < properties@.len() && properties@[found as int].name@ == property@,
        decreases hi - lo + (if searching { 1int } else { 0int }),
    {
        let mid: usize = lo + (hi - lo) / 2;
        match compare_names(properties[mid].name.as_str(), property) {
            NameOrder::Less => {
                proof {
                    let j = choose|j: int| lo <= j < hi && #[trigger] properties@[j].name@ == property@;
                    if j < mid {
                        assert(!name_lt(properties@[mid as int].name@, properties@[j].name@));
                    }
                    assert(j != mid);
                }
                lo = mid + 1;
            },
            NameOrder::Greater => {
                proof {
                    let j = choose|j: int| lo <= j < hi && #[trigger] properties@[j].name@ == property@;
                    if j > mid {
                        assert(!name_lt(properties@[j].name@, properties@[mid as int].name@));
                    }
                    assert(j != mid);
                }
                hi = mid;
            },
            NameOrder::Equal => {
                found = mid;
                searching = false;
            },
        }
    }
    properties[found].defined_at = Some(range);
}

} // verus!
