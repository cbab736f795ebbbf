//! Directive scanner: answers whether a field's attribute list carries a
//! given directive token.
//!
//! A directive is carried by a grouping attribute wrapping a nested list
//! of meta items; the field carries the directive exactly when some nested
//! item's leading identifier equals the token. Malformed or unrecognized
//! nested content never fails the scan; it simply does not match.

use vstd::prelude::*;

use crate::model::AttrEntry;
use crate::model::FieldDef;
use crate::model::MetaItem;
use crate::model::SpecAttr;
use crate::model::SpecField;
use crate::model::SpecMeta;

verus! {

/// Whether one nested meta item's leading identifier equals `token`.
pub open spec fn meta_is(m: SpecMeta, token: Seq<char>) -> bool {
    match m {
        SpecMeta::Named(n) => n == token,
        SpecMeta::Other => false,
    }
}

/// Whether one attribute is a grouping attribute with a nested item whose
/// leading identifier equals `token`.
pub open spec fn attr_has(a: SpecAttr, token: Seq<char>) -> bool {
    match a {
        SpecAttr::Group(items) => exists|i: int| 0 <= i < items.len() && meta_is(items[i], token),
        SpecAttr::Other => false,
    }
}

/// Whether the field carries directive `token` in some grouping attribute.
pub open spec fn has_token(f: SpecField, token: Seq<char>) -> bool {
    exists|i: int| 0 <= i < f.attrs.len() && attr_has(f.attrs[i], token)
}

/// The field carries the directive that suppresses its constructor
/// parameter and initializes it from the type's default value.
pub open spec fn is_defaulted(f: SpecField) -> bool {
    has_token(f, "default"@)
}

/// The field carries the directive that suppresses all accessors.
pub open spec fn is_skipped(f: SpecField) -> bool {
    has_token(f, "skip"@)
}

/// The field carries the directive that makes its read accessor return
/// by value.
pub open spec fn is_copy(f: SpecField) -> bool {
    has_token(f, "copy"@)
}

/// The field carries the directive that makes its read accessor return a
/// read-only view over the container's element type.
pub open spec fn is_as_slice(f: SpecField) -> bool {
    has_token(f, "as_slice"@)
}

/// A field receives accessors exactly when it is non-public and not
/// skip-flagged.
pub open spec fn is_exposed(f: SpecField) -> bool {
    !f.public && !is_skipped(f)
}

/// Scan one grouping attribute's nested items for a leading identifier
/// equal to `tok`.
fn group_contains(items: &Vec<MetaItem>, tok: &String) -> (r: bool)
    ensures
        r == exists|l: int| 0 <= l < items@.len() && meta_is(items@[l]@, tok@),
{
    let mut found = false;
    let mut j: usize = 0;
    while j < items.len()
        invariant
            j <= items.len(),
            found == exists|l: int| 0 <= l < j && meta_is(items@[l]@, tok@),
        decreases items.len() - j,
    {
        match &items[j] {
            MetaItem::Named(n) => {
                if *n == *tok {
                    proof {
                        assert(meta_is(items@[j as int]@, tok@));
                    }
                    found = true;
                } else {
                    proof {
                        assert(!meta_is(items@[j as int]@, tok@));
                    }
                }
            },
            MetaItem::Other => {
                proof {
                    assert(!meta_is(items@[j as int]@, tok@));
                }
            },
        }
        j = j + 1;
    }
    found
}

/// Scan the field's attributes for directive `token`.
///
/// Returns true iff some grouping attribute has a nested item whose
/// leading identifier exactly equals `token`; the scan never fails.
pub fn has_directive(f: &FieldDef, token: &str) -> (r: bool)
    ensures
        r == has_token(f@, token@),
{
    let tok: String = token.to_owned();
    let mut found = false;
    let mut i: usize = 0;
    while i < f.attrs.len()
        invariant
            tok@ == token@,
            i <= f.attrs.len(),
            found == exists|k: int| 0 <= k < i && attr_has(f@.attrs[k], token@),
        decreases f.attrs.len() - i,
    {
        match &f.attrs[i] {
            AttrEntry::Group(items) => {
                let hit = group_contains(items, &tok);
                proof {
                    let ms = items@.map_values(|m: MetaItem| m@);
                    assert(f@.attrs[i as int] == SpecAttr::Group(ms));
                    if hit {
                        let l = choose|l: int|
                            0 <= l < items@.len() && meta_is(items@[l]@, tok@);
                        assert(0 <= l < ms.len() && meta_is(ms[l], token@));
                        assert(attr_has(SpecAttr::Group(ms), token@));
                        assert(attr_has(f@.attrs[i as int], token@));
                    } else {
                        if attr_has(f@.attrs[i as int], token@) {
                            let l = choose|l: int| 0 <= l < ms.len() && meta_is(ms[l], token@);
                            assert(meta_is(items@[l]@, tok@));
                            assert(false);
                        }
                    }
                }
                if hit {
                    found = true;
                }
            },
            AttrEntry::Other => {
                proof {
                    assert(f@.attrs[i as int] == SpecAttr::Other);
                    assert(!attr_has(f@.attrs[i as int], token@));
                }
            },
        }
        i = i + 1;
    }
    found
}

} // verus!
