//! Read-accessor synthesis: for every exposed field (non-public and not
//! skip-flagged) of a named-field record, one public function named like
//! the field, its shape selected by directive priority Copy > AsSlice >
//! default.
//!
//! A copy-flagged field returns its declared type by value; an
//! as-slice-flagged field returns a read-only view over the container's
//! single type argument, and generation fails fatally when that argument
//! cannot be extracted; every other field returns a borrowed reference.
//! A non-record shape yields an empty fragment, silently.

use vstd::prelude::*;

use crate::extract::extract_result;
use crate::extract::extract_single_argument;
use crate::extract::TypeArgKind;
use crate::model::BodyDesc;
use crate::model::DataShape;
use crate::model::FieldDef;
use crate::model::Fragment;
use crate::model::GeneratedFunction;
use crate::model::ReturnDesc;
use crate::model::SpecBody;
use crate::model::SpecField;
use crate::model::SpecFragment;
use crate::model::SpecFunction;
use crate::model::SpecReturn;
use crate::model::SpecShape;
use crate::model::SpecTypeDef;
use crate::model::TypeDef;
use crate::scan::has_directive;
use crate::scan::is_as_slice;
use crate::scan::is_copy;
use crate::scan::is_exposed;

verus! {

/// A fatal diagnostic: a view-style accessor was requested for a field
/// whose declared type is not a single-argument generic container.
#[derive(Debug, PartialEq, Eq)]
pub struct TypeArgumentError {
    /// The offending field's name.
    pub field: String,
    /// What was wrong with its declared type.
    pub kind: TypeArgKind,
}

/// Image of [`TypeArgumentError`].
pub struct SpecTypeArgumentError {
    pub field: Seq<char>,
    pub kind: TypeArgKind,
}

impl View for TypeArgumentError {
    type V = SpecTypeArgumentError;

    open spec fn view(&self) -> SpecTypeArgumentError {
        SpecTypeArgumentError { field: self.field@, kind: self.kind }
    }
}

/// The read accessor for one exposed field, selected by directive
/// priority Copy > AsSlice > default, or the extraction failure kind.
pub open spec fn getter_of(f: SpecField) -> Result<SpecFunction, TypeArgKind> {
    if is_copy(f) {
        Ok(
            SpecFunction {
                name: f.name,
                params: Seq::empty(),
                ret: SpecReturn::Value(f.ty),
                body: SpecBody::ReadField(f.name),
            },
        )
    } else if is_as_slice(f) {
        match extract_result(f.ty) {
            Ok(elem) => Ok(
                SpecFunction {
                    name: f.name,
                    params: Seq::empty(),
                    ret: SpecReturn::RefSlice(elem),
                    body: SpecBody::SliceField(f.name),
                },
            ),
            Err(k) => Err(k),
        }
    } else {
        Ok(
            SpecFunction {
                name: f.name,
                params: Seq::empty(),
                ret: SpecReturn::Ref(f.ty),
                body: SpecBody::BorrowField(f.name),
            },
        )
    }
}

/// The read accessors of a field list, in declaration order: one per
/// exposed field. The first extraction failure, in declaration order,
/// fails the whole generation, named after its field.
pub open spec fn getter_fns(fields: Seq<SpecField>) -> Result<
    Seq<SpecFunction>,
    SpecTypeArgumentError,
>
    decreases fields.len(),
{
    if fields.len() == 0 {
        Ok(Seq::empty())
    } else {
        match getter_fns(fields.drop_last()) {
            Ok(fns) => if !is_exposed(fields.last()) {
                Ok(fns)
            } else {
                match getter_of(fields.last()) {
                    Ok(g) => Ok(fns.push(g)),
                    Err(k) => Err(
                        SpecTypeArgumentError { field: fields.last().name, kind: k },
                    ),
                }
            },
            Err(e) => Err(e),
        }
    }
}

/// The whole read-accessor fragment of a type definition: accessors for a
/// named-field record; an empty fragment, silently, for any other shape.
pub open spec fn getters_fragment(t: SpecTypeDef) -> Result<SpecFragment, SpecTypeArgumentError> {
    match t.data {
        SpecShape::NamedFields(fields) => match getter_fns(fields) {
            Ok(fns) => Ok(SpecFragment { record_name: t.name, functions: fns }),
            Err(e) => Err(e),
        },
        SpecShape::Unsupported => Ok(SpecFragment { record_name: t.name, functions: Seq::empty() }),
    }
}

/// An extraction failure in a prefix decides the whole field list.
proof fn lemma_getter_err_prefix(fields: Seq<SpecField>, i: int)
    requires
        0 <= i <= fields.len(),
        getter_fns(fields.take(i)) is Err,
    ensures
        getter_fns(fields) == getter_fns(fields.take(i)),
    decreases fields.len() - i,
{
    if i == fields.len() {
        assert(fields.take(i) =~= fields);
    } else {
        assert(fields.take(i + 1).drop_last() =~= fields.take(i));
        assert(getter_fns(fields.take(i + 1)) == getter_fns(fields.take(i)));
        lemma_getter_err_prefix(fields, i + 1);
    }
}

/// Synthesize the read-accessor fragment for a parsed type definition.
pub fn getters(input: &TypeDef) -> (r: Result<Fragment, TypeArgumentError>)
    ensures
        match r {
            Ok(f) => getters_fragment(input@) == Ok::<SpecFragment, SpecTypeArgumentError>(f@),
            Err(e) => getters_fragment(input@) == Err::<SpecFragment, SpecTypeArgumentError>(e@),
        },
{
    match &input.data {
        DataShape::NamedFields(fields) => {
            let ghost sfields = fields@.map_values(|f: FieldDef| f@);
            proof {
                assert(input@.data == SpecShape::NamedFields(sfields));
            }
            let mut funcs: Vec<GeneratedFunction> = Vec::new();
            proof {
                assert(sfields.take(0) =~= Seq::<SpecField>::empty());
                assert(funcs@.map_values(|g: GeneratedFunction| g@) =~= Seq::<
                    SpecFunction,
                >::empty());
            }
            let mut i: usize = 0;
            while i < fields.len()
                invariant
                    i <= fields.len(),
                    sfields == fields@.map_values(|f: FieldDef| f@),
                    input@.data == SpecShape::NamedFields(sfields),
                    getter_fns(sfields.take(i as int)) == Ok::<
                        Seq<SpecFunction>,
                        SpecTypeArgumentError,
                    >(funcs@.map_values(|g: GeneratedFunction| g@)),
                decreases fields.len() - i,
            {
                let f = &fields[i];
                proof {
                    assert(sfields[i as int] == f@);
                    assert(sfields.take(i + 1 as int).drop_last() =~= sfields.take(i as int));
                    assert(sfields.take(i + 1 as int).last() == f@);
                }
                let ghost funcs_pre = funcs@.map_values(|g: GeneratedFunction| g@);
                if !f.public && !has_directive(f, "skip") {
                    if has_directive(f, "copy") {
                        funcs.push(
                            GeneratedFunction {
                                name: f.name.clone(),
                                params: Vec::new(),
                                ret: ReturnDesc::Value(f.ty.clone()),
                                body: BodyDesc::ReadField(f.name.clone()),
                            },
                        );
                        proof {
                            let g = SpecFunction {
                                name: f@.name,
                                params: Seq::empty(),
                                ret: SpecReturn::Value(f@.ty),
                                body: SpecBody::ReadField(f@.name),
                            };
                            assert(funcs@.last()@.params =~= Seq::<
                                crate::model::SpecParam,
                            >::empty());
                            assert(funcs@.last()@ == g);
                            assert(getter_of(f@) == Ok::<SpecFunction, TypeArgKind>(g));
                            assert(funcs@.map_values(|x: GeneratedFunction| x@) =~= funcs_pre.push(
                                g,
                            ));
                        }
                    } else if has_directive(f, "as_slice") {
                        match extract_single_argument(&f.ty) {
                            Ok(elem) => {
                                funcs.push(
                                    GeneratedFunction {
                                        name: f.name.clone(),
                                        params: Vec::new(),
                                        ret: ReturnDesc::RefSlice(elem),
                                        body: BodyDesc::SliceField(f.name.clone()),
                                    },
                                );
                                proof {
                                    let g = funcs@.last()@;
                                    assert(g.params =~= Seq::<crate::model::SpecParam>::empty());
                                    assert(getter_of(f@) == Ok::<SpecFunction, TypeArgKind>(g));
                                    assert(funcs@.map_values(|x: GeneratedFunction| x@)
                                        =~= funcs_pre.push(g));
                                }
                            },
                            Err(k) => {
                                let e = TypeArgumentError { field: f.name.clone(), kind: k };
                                proof {
                                    assert(getter_of(f@) == Err::<SpecFunction, TypeArgKind>(k));
                                    assert(getter_fns(sfields.take(i + 1 as int)) == Err::<
                                        Seq<SpecFunction>,
                                        SpecTypeArgumentError,
                                    >(e@));
                                    lemma_getter_err_prefix(sfields, i + 1 as int);
                                }
                                return Err(e);
                            },
                        }
                    } else {
                        funcs.push(
                            GeneratedFunction {
                                name: f.name.clone(),
                                params: Vec::new(),
                                ret: ReturnDesc::Ref(f.ty.clone()),
                                body: BodyDesc::BorrowField(f.name.clone()),
                            },
                        );
                        proof {
                            let g = SpecFunction {
                                name: f@.name,
                                params: Seq::empty(),
                                ret: SpecReturn::Ref(f@.ty),
                                body: SpecBody::BorrowField(f@.name),
                            };
                            assert(funcs@.last()@.params =~= Seq::<
                                crate::model::SpecParam,
                            >::empty());
                            assert(funcs@.last()@ == g);
                            assert(getter_of(f@) == Ok::<SpecFunction, TypeArgKind>(g));
                            assert(funcs@.map_values(|x: GeneratedFunction| x@) =~= funcs_pre.push(
                                g,
                            ));
                        }
                    }
                } else {
                    proof {
                        assert(!is_exposed(f@));
                        assert(getter_fns(sfields.take(i + 1 as int)) == getter_fns(
                            sfields.take(i as int),
                        ));
                    }
                }
                i = i + 1;
            }
            proof {
                assert(sfields.take(fields@.len() as int) =~= sfields);
            }
            Ok(Fragment { record_name: input.name.clone(), functions: funcs })
        },
        DataShape::Unsupported => {
            let r = Fragment { record_name: input.name.clone(), functions: Vec::new() };
            proof {
                assert(r@.functions =~= Seq::<SpecFunction>::empty());
            }
            Ok(r)
        },
    }
}

} // verus!
