//! Type-argument extractor: pulls the single generic type-argument out of
//! a container-shaped declared type, in support of view-style accessors.
//!
//! Extraction applies only to a declared type given as a named path; it
//! takes the first path segment and, when that segment carries an
//! angle-bracketed argument list, returns the list's first argument. A
//! segment without an argument list (an empty one counts as missing) and
//! a non-path type are the two failure cases; both are fatal to the
//! requesting generation.

use vstd::prelude::*;

use crate::model::GenericArg;
use crate::model::SpecType;
use crate::model::TypeDesc;

verus! {

/// Why extraction of a container's type argument failed.
#[derive(Clone, Copy, Debug, PartialEq, Eq, Structural)]
pub enum TypeArgKind {
    /// The declared type is a named path whose first segment carries no
    /// angle-bracketed type argument (a bare scalar, for instance).
    GenericContainerExpected,
    /// The declared type is not a simple named path at all.
    ContainerExpected,
}

/// What extraction returns on a declared type: the first argument of the
/// first segment's angle-bracketed list, or the failure kind.
pub open spec fn extract_result(t: SpecType) -> Result<Seq<char>, TypeArgKind> {
    match t {
        SpecType::Path(segs) => if segs.len() == 0 {
            Err(TypeArgKind::ContainerExpected)
        } else {
            match segs[0].args {
                Some(args) => if args.len() > 0 {
                    Ok(args[0])
                } else {
                    Err(TypeArgKind::GenericContainerExpected)
                },
                None => Err(TypeArgKind::GenericContainerExpected),
            }
        },
        SpecType::Other(_) => Err(TypeArgKind::ContainerExpected),
    }
}

/// Extract the single generic type-argument of a container-shaped
/// declared type, or report why it has none.
pub fn extract_single_argument(t: &TypeDesc) -> (r: Result<GenericArg, TypeArgKind>)
    ensures
        match r {
            Ok(a) => extract_result(t@) == Ok::<Seq<char>, TypeArgKind>(a@),
            Err(e) => extract_result(t@) == Err::<Seq<char>, TypeArgKind>(e),
        },
{
    match t {
        TypeDesc::Path(segs) => {
            if segs.len() == 0 {
                Err(TypeArgKind::ContainerExpected)
            } else {
                let seg = &segs[0];
                proof {
                    assert(t@ == SpecType::Path(segs@.map_values(|s: crate::model::PathSegment| s@)));
                    assert(segs@.map_values(|s: crate::model::PathSegment| s@)[0] == seg@);
                }
                match &seg.args {
                    Some(args) => {
                        if args.len() > 0 {
                            let a = args[0].clone();
                            proof {
                                assert(seg@.args == Some(args@.map_values(|x: GenericArg| x@)));
                                assert(args@.map_values(|x: GenericArg| x@)[0] == a@);
                            }
                            Ok(a)
                        } else {
                            Err(TypeArgKind::GenericContainerExpected)
                        }
                    },
                    None => Err(TypeArgKind::GenericContainerExpected),
                }
            }
        },
        TypeDesc::Other(_) => Err(TypeArgKind::ContainerExpected),
    }
}

} // verus!
