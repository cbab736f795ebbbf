//! Write-accessor synthesis: for every exposed field (non-public and not
//! skip-flagged) of a named-field record, two consecutive public
//! functions in declaration order — `set_<field>`, which assigns its one
//! parameter into the field and returns nothing, and `<field>_as_mut`,
//! which returns a mutable reference to the field.
//!
//! The Copy and AsSlice directives have no effect here. A non-record
//! shape yields an empty fragment, silently.

use vstd::prelude::*;
use vstd::string::StringExecFns;

use crate::model::BodyDesc;
use crate::model::DataShape;
use crate::model::FieldDef;
use crate::model::Fragment;
use crate::model::GeneratedFunction;
use crate::model::Param;
use crate::model::ReturnDesc;
use crate::model::SpecBody;
use crate::model::SpecField;
use crate::model::SpecFragment;
use crate::model::SpecFunction;
use crate::model::SpecParam;
use crate::model::SpecReturn;
use crate::model::SpecShape;
use crate::model::SpecTypeDef;
use crate::model::TypeDef;
use crate::scan::has_directive;
use crate::scan::is_exposed;

verus! {

/// The name of a field's assigning write accessor.
pub open spec fn setter_name(field: Seq<char>) -> Seq<char> {
    "set_"@ + field
}

/// The name of a field's mutable-reference accessor.
pub open spec fn mut_name(field: Seq<char>) -> Seq<char> {
    field + "_as_mut"@
}

/// The assigning write accessor of one exposed field: takes `v` of the
/// field's declared type, assigns it into the field, returns nothing.
pub open spec fn assign_fn_of(f: SpecField) -> SpecFunction {
    SpecFunction {
        name: setter_name(f.name),
        params: seq![SpecParam { name: "v"@, ty: f.ty }],
        ret: SpecReturn::Unit,
        body: SpecBody::AssignField(f.name),
    }
}

/// The mutable-reference accessor of one exposed field.
pub open spec fn mut_fn_of(f: SpecField) -> SpecFunction {
    SpecFunction {
        name: mut_name(f.name),
        params: Seq::empty(),
        ret: SpecReturn::RefMut(f.ty),
        body: SpecBody::MutBorrowField(f.name),
    }
}

/// The two consecutive write accessors of one exposed field.
pub open spec fn setter_pair(f: SpecField) -> Seq<SpecFunction> {
    seq![assign_fn_of(f), mut_fn_of(f)]
}

/// The write accessors of a field list: two per exposed field,
/// consecutively, in declaration order.
pub open spec fn setter_fns(fields: Seq<SpecField>) -> Seq<SpecFunction>
    decreases fields.len(),
{
    if fields.len() == 0 {
        Seq::empty()
    } else {
        setter_fns(fields.drop_last()) + if is_exposed(fields.last()) {
            setter_pair(fields.last())
        } else {
            Seq::<SpecFunction>::empty()
        }
    }
}

/// The whole write-accessor fragment of a type definition: accessors for
/// a named-field record; an empty fragment, silently, for any other shape.
pub open spec fn setters_fragment(t: SpecTypeDef) -> SpecFragment {
    SpecFragment {
        record_name: t.name,
        functions: match t.data {
            SpecShape::NamedFields(fields) => setter_fns(fields),
            SpecShape::Unsupported => Seq::empty(),
        },
    }
}

/// Synthesize the write-accessor fragment for a parsed type definition.
pub fn setters(input: &TypeDef) -> (r: Fragment)
    ensures
        r@ == setters_fragment(input@),
{
    match &input.data {
        DataShape::NamedFields(fields) => {
            let ghost sfields = fields@.map_values(|f: FieldDef| f@);
            proof {
                assert(input@.data == SpecShape::NamedFields(sfields));
            }
            let mut funcs: Vec<GeneratedFunction> = Vec::new();
            let mut i: usize = 0;
            while i < fields.len()
                invariant
                    i <= fields.len(),
                    sfields == fields@.map_values(|f: FieldDef| f@),
                    funcs@.map_values(|g: GeneratedFunction| g@) == setter_fns(
                        sfields.take(i as int),
                    ),
                decreases fields.len() - i,
            {
                let f = &fields[i];
                proof {
                    assert(sfields[i as int] == f@);
                    assert(sfields.take(i + 1 as int).drop_last() =~= sfields.take(i as int));
                    assert(sfields.take(i + 1 as int).last() == f@);
                }
                let ghost funcs_pre = funcs@.map_values(|g: GeneratedFunction| g@);
                if !f.public && !has_directive(f, "skip") {
                    let set_name = String::from_str("set_").concat(f.name.as_str());
                    let mut set_params: Vec<Param> = Vec::new();
                    set_params.push(Param { name: String::from_str("v"), ty: f.ty.clone() });
                    funcs.push(
                        GeneratedFunction {
                            name: set_name,
                            params: set_params,
                            ret: ReturnDesc::Unit,
                            body: BodyDesc::AssignField(f.name.clone()),
                        },
                    );
                    proof {
                        assert(funcs@.last()@.params =~= seq![
                            SpecParam { name: "v"@, ty: f@.ty },
                        ]);
                        assert(funcs@.last()@ == assign_fn_of(f@));
                    }
                    let as_mut_name = f.name.clone().concat("_as_mut");
                    funcs.push(
                        GeneratedFunction {
                            name: as_mut_name,
                            params: Vec::new(),
                            ret: ReturnDesc::RefMut(f.ty.clone()),
                            body: BodyDesc::MutBorrowField(f.name.clone()),
                        },
                    );
                    proof {
                        assert(funcs@.last()@.params =~= Seq::<SpecParam>::empty());
                        assert(funcs@.last()@ == mut_fn_of(f@));
                        assert(funcs@.map_values(|g: GeneratedFunction| g@) =~= funcs_pre
                            + setter_pair(f@));
                        assert(setter_fns(sfields.take(i + 1 as int)) == funcs_pre + setter_pair(
                            f@,
                        ));
                    }
                } else {
                    proof {
                        assert(!is_exposed(f@));
                        assert(setter_fns(sfields.take(i + 1 as int)) =~= setter_fns(
                            sfields.take(i as int),
                        ));
                    }
                }
                i = i + 1;
            }
            proof {
                assert(sfields.take(fields@.len() as int) =~= sfields);
            }
            Fragment { record_name: input.name.clone(), functions: funcs }
        },
        DataShape::Unsupported => {
            let r = Fragment { record_name: input.name.clone(), functions: Vec::new() };
            proof {
                assert(r@.functions =~= Seq::<SpecFunction>::empty());
            }
            r
        },
    }
}

} // verus!
