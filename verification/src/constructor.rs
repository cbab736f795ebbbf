//! Constructor synthesis: one public function `new` for a named-field
//! record, whose parameters are the non-defaulted fields in declaration
//! order and whose body constructs the record, initializing every field in
//! declaration order — defaulted fields from their type's default value,
//! all others from the parameter of the same name.

use vstd::prelude::*;
use vstd::string::StringExecFns;

use crate::model::BodyDesc;
use crate::model::DataShape;
use crate::model::FieldDef;
use crate::model::FieldInit;
use crate::model::Fragment;
use crate::model::GeneratedFunction;
use crate::model::InitExpr;
use crate::model::Param;
use crate::model::ReturnDesc;
use crate::model::SpecBody;
use crate::model::SpecField;
use crate::model::SpecFieldInit;
use crate::model::SpecFragment;
use crate::model::SpecFunction;
use crate::model::SpecInit;
use crate::model::SpecParam;
use crate::model::SpecReturn;
use crate::model::SpecShape;
use crate::model::SpecTypeDef;
use crate::model::TypeDef;
use crate::scan::has_directive;
use crate::scan::is_defaulted;

verus! {

/// The constructor parameter derived from one field: its name and
/// declared type, stripped of attributes and visibility.
pub open spec fn param_of(f: SpecField) -> SpecParam {
    SpecParam { name: f.name, ty: f.ty }
}

/// The initializer derived from one field: a defaulted field calls its
/// type's default-value constructor, every other field uses the
/// parameter of the same name.
pub open spec fn init_of(f: SpecField) -> SpecFieldInit {
    SpecFieldInit {
        field: f.name,
        init: if is_defaulted(f) {
            SpecInit::DefaultCall
        } else {
            SpecInit::FromParam(f.name)
        },
    }
}

/// The constructor's parameter list: one parameter per non-defaulted
/// field, in declaration order.
pub open spec fn ctor_params(fields: Seq<SpecField>) -> Seq<SpecParam>
    decreases fields.len(),
{
    if fields.len() == 0 {
        Seq::empty()
    } else {
        ctor_params(fields.drop_last()) + if is_defaulted(fields.last()) {
            Seq::<SpecParam>::empty()
        } else {
            seq![param_of(fields.last())]
        }
    }
}

/// The constructed value's initializer list: one initializer per field,
/// in declaration order.
pub open spec fn ctor_inits(fields: Seq<SpecField>) -> Seq<SpecFieldInit> {
    fields.map_values(|f: SpecField| init_of(f))
}

/// The one function the constructor synthesizer emits for a record.
pub open spec fn ctor_function(name: Seq<char>, fields: Seq<SpecField>) -> SpecFunction {
    SpecFunction {
        name: "new"@,
        params: ctor_params(fields),
        ret: SpecReturn::Record(name),
        body: SpecBody::Construct(ctor_inits(fields)),
    }
}

/// The whole constructor fragment: one `new` function for a named-field
/// record; an empty fragment, silently, for any other shape.
pub open spec fn ctor_fragment(t: SpecTypeDef) -> SpecFragment {
    SpecFragment {
        record_name: t.name,
        functions: match t.data {
            SpecShape::NamedFields(fields) => seq![ctor_function(t.name, fields)],
            SpecShape::Unsupported => Seq::empty(),
        },
    }
}

/// Synthesize the constructor fragment for a parsed type definition.
pub fn constructor(input: &TypeDef) -> (r: Fragment)
    ensures
        r@ == ctor_fragment(input@),
{
    match &input.data {
        DataShape::NamedFields(fields) => {
            let ghost sfields = fields@.map_values(|f: FieldDef| f@);
            let mut params: Vec<Param> = Vec::new();
            let mut inits: Vec<FieldInit> = Vec::new();
            let mut i: usize = 0;
            while i < fields.len()
                invariant
                    i <= fields.len(),
                    sfields == fields@.map_values(|f: FieldDef| f@),
                    params@.map_values(|p: Param| p@) == ctor_params(sfields.take(i as int)),
                    inits@.map_values(|x: FieldInit| x@) == ctor_inits(sfields.take(i as int)),
                decreases fields.len() - i,
            {
                let f = &fields[i];
                proof {
                    assert(sfields[i as int] == f@);
                    assert(sfields.take(i + 1 as int).drop_last() =~= sfields.take(i as int));
                    assert(sfields.take(i + 1 as int).last() == f@);
                }
                let ghost params_pre = params@.map_values(|p: Param| p@);
                let ghost inits_pre = inits@.map_values(|x: FieldInit| x@);
                if has_directive(f, "default") {
                    inits.push(FieldInit { field: f.name.clone(), init: InitExpr::DefaultCall });
                    proof {
                        assert(ctor_params(sfields.take(i + 1 as int)) =~= params_pre);
                        assert(inits@.map_values(|x: FieldInit| x@) =~= inits_pre.push(
                            init_of(f@),
                        ));
                        assert(ctor_inits(sfields.take(i + 1 as int)) =~= inits_pre.push(
                            init_of(f@),
                        ));
                    }
                } else {
                    params.push(Param { name: f.name.clone(), ty: f.ty.clone() });
                    inits.push(
                        FieldInit {
                            field: f.name.clone(),
                            init: InitExpr::FromParam(f.name.clone()),
                        },
                    );
                    proof {
                        assert(params@.map_values(|p: Param| p@) =~= params_pre.push(
                            param_of(f@),
                        ));
                        assert(ctor_params(sfields.take(i + 1 as int)) =~= params_pre.push(
                            param_of(f@),
                        ));
                        assert(inits@.map_values(|x: FieldInit| x@) =~= inits_pre.push(
                            init_of(f@),
                        ));
                        assert(ctor_inits(sfields.take(i + 1 as int)) =~= inits_pre.push(
                            init_of(f@),
                        ));
                    }
                }
                i = i + 1;
            }
            proof {
                assert(sfields.take(fields@.len() as int) =~= sfields);
            }
            let func = GeneratedFunction {
                name: String::from_str("new"),
                params,
                ret: ReturnDesc::Record(input.name.clone()),
                body: BodyDesc::Construct(inits),
            };
            let mut functions: Vec<GeneratedFunction> = Vec::new();
            functions.push(func);
            let r = Fragment { record_name: input.name.clone(), functions };
            proof {
                assert(input@.data == SpecShape::NamedFields(sfields));
                assert(r@.functions =~= seq![ctor_function(input@.name, sfields)]);
            }
            r
        },
        DataShape::Unsupported => {
            let r = Fragment { record_name: input.name.clone(), functions: Vec::new() };
            proof {
                assert(r@.functions =~= Seq::<SpecFunction>::empty());
            }
            r
        },
    }
}

} // verus!
