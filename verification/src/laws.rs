//! The laws of the generator, stated over the spec-level model and proved
//! once for every input: how many functions each synthesizer emits, for
//! which fields, in which order and shape, and when read-accessor
//! generation is owed success.

use vstd::prelude::*;

use crate::constructor::ctor_fragment;
use crate::constructor::ctor_inits;
use crate::constructor::ctor_params;
use crate::constructor::init_of;
use crate::constructor::param_of;
use crate::extract::extract_result;
use crate::extract::TypeArgKind;
use crate::getters::getter_fns;
use crate::getters::getter_of;
use crate::getters::getters_fragment;
use crate::model::SpecBody;
use crate::model::SpecField;
use crate::model::SpecFunction;
use crate::model::SpecReturn;
use crate::model::SpecTypeDef;
use crate::scan::is_as_slice;
use crate::scan::is_copy;
use crate::scan::is_defaulted;
use crate::scan::is_exposed;
use crate::setters::assign_fn_of;
use crate::setters::mut_fn_of;
use crate::setters::setter_fns;
use crate::setters::setters_fragment;

verus! {

/// How many fields of the list carry the Default directive.
pub open spec fn count_defaulted(fields: Seq<SpecField>) -> int
    decreases fields.len(),
{
    if fields.len() == 0 {
        0
    } else {
        count_defaulted(fields.drop_last()) + if is_defaulted(fields.last()) {
            1int
        } else {
            0int
        }
    }
}

/// The non-defaulted fields, in declaration order.
pub open spec fn non_defaulted_fields(fields: Seq<SpecField>) -> Seq<SpecField>
    decreases fields.len(),
{
    if fields.len() == 0 {
        Seq::empty()
    } else {
        non_defaulted_fields(fields.drop_last()) + if is_defaulted(fields.last()) {
            Seq::<SpecField>::empty()
        } else {
            seq![fields.last()]
        }
    }
}

/// The exposed fields (non-public, not skip-flagged), in declaration order.
pub open spec fn exposed_fields(fields: Seq<SpecField>) -> Seq<SpecField>
    decreases fields.len(),
{
    if fields.len() == 0 {
        Seq::empty()
    } else {
        exposed_fields(fields.drop_last()) + if is_exposed(fields.last()) {
            seq![fields.last()]
        } else {
            Seq::<SpecField>::empty()
        }
    }
}

/// All field names of the list differ, as the host language grants for a
/// record's fields.
pub open spec fn distinct_names(fields: Seq<SpecField>) -> bool {
    forall|i: int, j: int| 0 <= i < j < fields.len() ==> fields[i].name != fields[j].name
}

/// The field a generated accessor reads or writes; a constructor body
/// has no single subject and yields the empty name.
pub open spec fn accessor_subject(g: SpecFunction) -> Seq<char> {
    match g.body {
        SpecBody::ReadField(n) => n,
        SpecBody::BorrowField(n) => n,
        SpecBody::SliceField(n) => n,
        SpecBody::AssignField(n) => n,
        SpecBody::MutBorrowField(n) => n,
        SpecBody::Construct(_) => Seq::empty(),
    }
}

/// For a record with `N` named fields of which exactly `k` carry the
/// Default directive, the synthesized constructor has exactly `N - k`
/// parameters — the non-defaulted fields, in declaration order — and the
/// constructed value initializes every field in declaration order:
/// defaulted fields from their type's default value, all others from the
/// parameter of the same name.
pub proof fn lemma_constructor_shape(fields: Seq<SpecField>)
    ensures
        ctor_params(fields).len() + count_defaulted(fields) == fields.len(),
        ctor_params(fields) == non_defaulted_fields(fields).map_values(
            |f: SpecField| param_of(f),
        ),
        ctor_inits(fields).len() == fields.len(),
        forall|i: int|
            0 <= i < fields.len() ==> (#[trigger] ctor_inits(fields)[i]) == init_of(fields[i]),
    decreases fields.len(),
{
    if fields.len() == 0 {
        assert(ctor_params(fields) =~= non_defaulted_fields(fields).map_values(
            |f: SpecField| param_of(f),
        ));
    } else {
        lemma_constructor_shape(fields.drop_last());
        assert(ctor_params(fields) =~= non_defaulted_fields(fields).map_values(
            |f: SpecField| param_of(f),
        ));
    }
}

/// Every element of `exposed_fields` is an exposed field of the list.
pub proof fn lemma_exposed_fields_members(fields: Seq<SpecField>)
    ensures
        forall|k: int|
            0 <= k < exposed_fields(fields).len() ==> is_exposed(
                #[trigger] exposed_fields(fields)[k],
            ),
        forall|k: int|
            0 <= k < exposed_fields(fields).len() ==> exists|m: int|
                0 <= m < fields.len() && fields[m] == #[trigger] exposed_fields(fields)[k],
    decreases fields.len(),
{
    if fields.len() > 0 {
        lemma_exposed_fields_members(fields.drop_last());
        let es = exposed_fields(fields);
        let prefix = exposed_fields(fields.drop_last());
        assert forall|k: int| 0 <= k < es.len() implies is_exposed(#[trigger] es[k]) && exists|
            m: int,
        | 0 <= m < fields.len() && fields[m] == es[k] by {
            if k < prefix.len() {
                assert(es[k] == prefix[k]);
                let m = choose|m: int|
                    0 <= m < fields.drop_last().len() && fields.drop_last()[m] == prefix[k];
                assert(fields[m] == es[k]);
            } else {
                assert(es[k] == fields.last());
                assert(fields[fields.len() - 1] == es[k]);
            }
        }
    }
}

/// Every exposed field gets exactly one read accessor, in declaration
/// order, when generation succeeds.
pub proof fn lemma_getters_coverage(fields: Seq<SpecField>)
    requires
        getter_fns(fields) is Ok,
    ensures
        getter_fns(fields)->Ok_0.len() == exposed_fields(fields).len(),
        forall|i: int|
            0 <= i < exposed_fields(fields).len() ==> getter_of(
                #[trigger] exposed_fields(fields)[i],
            ) is Ok && getter_fns(fields)->Ok_0[i] == getter_of(exposed_fields(fields)[i])->Ok_0,
    decreases fields.len(),
{
    if fields.len() > 0 {
        assert(getter_fns(fields.drop_last()) is Ok);
        lemma_getters_coverage(fields.drop_last());
    }
}

/// Every exposed field gets exactly two write accessors, consecutively,
/// in declaration order: the assigning one, then the mutable-reference
/// one.
pub proof fn lemma_setters_coverage(fields: Seq<SpecField>)
    ensures
        setter_fns(fields).len() == 2 * exposed_fields(fields).len(),
        forall|i: int|
            0 <= i < exposed_fields(fields).len() ==> setter_fns(fields)[2 * i] == assign_fn_of(
                #[trigger] exposed_fields(fields)[i],
            ) && setter_fns(fields)[2 * i + 1] == mut_fn_of(exposed_fields(fields)[i]),
    decreases fields.len(),
{
    if fields.len() > 0 {
        lemma_setters_coverage(fields.drop_last());
        let es = exposed_fields(fields);
        let prefix = exposed_fields(fields.drop_last());
        assert forall|i: int|
            0 <= i < es.len() implies setter_fns(fields)[2 * i] == assign_fn_of(#[trigger] es[i])
            && setter_fns(fields)[2 * i + 1] == mut_fn_of(es[i]) by {
            if i < prefix.len() {
                assert(es[i] == prefix[i]);
                assert(setter_fns(fields)[2 * i] == setter_fns(fields.drop_last())[2 * i]);
                assert(setter_fns(fields)[2 * i + 1] == setter_fns(fields.drop_last())[2 * i + 1]);
            } else {
                assert(is_exposed(fields.last()));
                assert(es[i] == fields.last());
            }
        }
    }
}

/// The subject of `g` is the name of some exposed field of the list.
pub open spec fn subject_is_exposed_name(fields: Seq<SpecField>, g: SpecFunction) -> bool {
    exists|m: int|
        0 <= m < fields.len() && is_exposed(#[trigger] fields[m]) && accessor_subject(g)
            == fields[m].name
}

/// Every read accessor's subject is the name of some exposed field.
pub proof fn lemma_getter_subjects(fields: Seq<SpecField>)
    requires
        getter_fns(fields) is Ok,
    ensures
        forall|j: int|
            0 <= j < getter_fns(fields)->Ok_0.len() ==> subject_is_exposed_name(
                fields,
                #[trigger] getter_fns(fields)->Ok_0[j],
            ),
    decreases fields.len(),
{
    if fields.len() > 0 {
        assert(getter_fns(fields.drop_last()) is Ok);
        lemma_getter_subjects(fields.drop_last());
        let fns = getter_fns(fields)->Ok_0;
        let prefix = getter_fns(fields.drop_last())->Ok_0;
        assert forall|j: int| 0 <= j < fns.len() implies subject_is_exposed_name(
            fields,
            #[trigger] fns[j],
        ) by {
            if j < prefix.len() {
                assert(fns[j] == prefix[j]);
                assert(subject_is_exposed_name(fields.drop_last(), prefix[j]));
                let m = choose|m: int|
                    0 <= m < fields.drop_last().len() && is_exposed(
                        #[trigger] fields.drop_last()[m],
                    ) && accessor_subject(prefix[j]) == fields.drop_last()[m].name;
                assert(fields[m] == fields.drop_last()[m]);
                assert(0 <= m < fields.len() && is_exposed(fields[m]) && accessor_subject(fns[j])
                    == fields[m].name);
            } else {
                let m = fields.len() - 1;
                assert(is_exposed(fields.last()));
                assert(fns[j] == getter_of(fields.last())->Ok_0);
                assert(accessor_subject(fns[j]) == fields.last().name);
                assert(0 <= m < fields.len() && is_exposed(fields[m]) && accessor_subject(fns[j])
                    == fields[m].name);
            }
        }
    }
}

/// Every write accessor's subject is the name of some exposed field.
pub proof fn lemma_setter_subjects(fields: Seq<SpecField>)
    ensures
        forall|j: int|
            0 <= j < setter_fns(fields).len() ==> subject_is_exposed_name(
                fields,
                #[trigger] setter_fns(fields)[j],
            ),
    decreases fields.len(),
{
    if fields.len() > 0 {
        lemma_setter_subjects(fields.drop_last());
        let fns = setter_fns(fields);
        let prefix = setter_fns(fields.drop_last());
        assert forall|j: int| 0 <= j < fns.len() implies subject_is_exposed_name(
            fields,
            #[trigger] fns[j],
        ) by {
            if j < prefix.len() {
                assert(fns[j] == prefix[j]);
                assert(subject_is_exposed_name(fields.drop_last(), prefix[j]));
                let m = choose|m: int|
                    0 <= m < fields.drop_last().len() && is_exposed(
                        #[trigger] fields.drop_last()[m],
                    ) && accessor_subject(prefix[j]) == fields.drop_last()[m].name;
                assert(fields[m] == fields.drop_last()[m]);
                assert(0 <= m < fields.len() && is_exposed(fields[m]) && accessor_subject(fns[j])
                    == fields[m].name);
            } else {
                let m = fields.len() - 1;
                assert(is_exposed(fields.last()));
                assert(fns[j] == assign_fn_of(fields.last()) || fns[j] == mut_fn_of(
                    fields.last(),
                ));
                assert(accessor_subject(fns[j]) == fields.last().name);
                assert(0 <= m < fields.len() && is_exposed(fields[m]) && accessor_subject(fns[j])
                    == fields[m].name);
            }
        }
    }
}

/// A field that is public or skip-flagged receives no read and no write
/// accessor: no generated function reads or writes it.
pub proof fn lemma_hidden_field_untouched(fields: Seq<SpecField>, i: int)
    requires
        distinct_names(fields),
        0 <= i < fields.len(),
        !is_exposed(fields[i]),
    ensures
        getter_fns(fields) is Ok ==> forall|j: int|
            0 <= j < getter_fns(fields)->Ok_0.len() ==> accessor_subject(
                #[trigger] getter_fns(fields)->Ok_0[j],
            ) != fields[i].name,
        forall|j: int|
            0 <= j < setter_fns(fields).len() ==> accessor_subject(
                #[trigger] setter_fns(fields)[j],
            ) != fields[i].name,
{
    if getter_fns(fields) is Ok {
        lemma_getter_subjects(fields);
        let fns = getter_fns(fields)->Ok_0;
        assert forall|j: int| 0 <= j < fns.len() implies accessor_subject(#[trigger] fns[j])
            != fields[i].name by {
            assert(subject_is_exposed_name(fields, fns[j]));
            let m = choose|m: int|
                0 <= m < fields.len() && is_exposed(#[trigger] fields[m]) && accessor_subject(
                    fns[j],
                ) == fields[m].name;
            assert(m != i);
        }
    }
    lemma_setter_subjects(fields);
    let fns = setter_fns(fields);
    assert forall|j: int| 0 <= j < fns.len() implies accessor_subject(#[trigger] fns[j])
        != fields[i].name by {
        assert(subject_is_exposed_name(fields, fns[j]));
        let m = choose|m: int|
            0 <= m < fields.len() && is_exposed(#[trigger] fields[m]) && accessor_subject(
                fns[j],
            ) == fields[m].name;
        assert(m != i);
    }
}

/// A copy-flagged field's read accessor returns by value; an otherwise
/// identical field without the Copy directive (and without AsSlice)
/// returns a borrowed reference — the two differ in return shape though
/// the declared type is the same.
pub proof fn lemma_copy_changes_return_shape(f: SpecField, g: SpecField)
    requires
        f.ty == g.ty,
        is_copy(f),
        !is_copy(g),
        !is_as_slice(g),
    ensures
        getter_of(f) is Ok && getter_of(f)->Ok_0.ret == SpecReturn::Value(f.ty),
        getter_of(g) is Ok && getter_of(g)->Ok_0.ret == SpecReturn::Ref(g.ty),
        getter_of(f)->Ok_0.ret != getter_of(g)->Ok_0.ret,
{
}

/// An as-slice-flagged field with an extractable container type argument
/// yields a read accessor returning a read-only view over that argument;
/// one whose declared type has no extractable argument fails the
/// generation with that failure's kind, never a silent fallback.
pub proof fn lemma_as_slice_shapes(f: SpecField)
    requires
        is_as_slice(f),
        !is_copy(f),
    ensures
        extract_result(f.ty) matches Ok(elem) ==> getter_of(f) == Ok::<SpecFunction, TypeArgKind>(
            SpecFunction {
                name: f.name,
                params: Seq::empty(),
                ret: SpecReturn::RefSlice(elem),
                body: SpecBody::SliceField(f.name),
            },
        ),
        extract_result(f.ty) matches Err(k) ==> getter_of(f) == Err::<SpecFunction, TypeArgKind>(
            k,
        ),
{
}

/// Read-accessor generation succeeds exactly when every exposed field
/// that requests the as-slice shape (and is not copy-flagged) has an
/// extractable container type argument.
pub proof fn lemma_getters_success(fields: Seq<SpecField>)
    ensures
        getter_fns(fields) is Ok <==> forall|i: int|
            0 <= i < fields.len() ==> ((is_exposed(#[trigger] fields[i]) && is_as_slice(fields[i])
                && !is_copy(fields[i])) ==> extract_result(fields[i].ty) is Ok),
    decreases fields.len(),
{
    if fields.len() > 0 {
        lemma_getters_success(fields.drop_last());
        let prefix = fields.drop_last();
        let la = fields.last();
        if getter_fns(fields) is Ok {
            assert forall|i: int|
                0 <= i < fields.len() && is_exposed(#[trigger] fields[i]) && is_as_slice(
                    fields[i],
                ) && !is_copy(fields[i]) implies extract_result(fields[i].ty) is Ok by {
                if i < fields.len() - 1 {
                    assert(prefix[i] == fields[i]);
                } else {
                    assert(fields[i] == la);
                    assert(getter_of(la) is Ok);
                }
            }
        } else {
            if getter_fns(prefix) is Ok {
                assert(is_exposed(la) && getter_of(la) is Err);
                assert(is_as_slice(la) && !is_copy(la));
                assert(extract_result(la.ty) is Err);
                let i = fields.len() - 1;
                assert(is_exposed(fields[i]) && is_as_slice(fields[i]) && !is_copy(fields[i])
                    && !(extract_result(fields[i].ty) is Ok));
            } else {
                let i = choose|i: int|
                    0 <= i < prefix.len() && is_exposed(#[trigger] prefix[i]) && is_as_slice(
                        prefix[i],
                    ) && !is_copy(prefix[i]) && !(extract_result(prefix[i].ty) is Ok);
                assert(fields[i] == prefix[i]);
                assert(!(extract_result(fields[i].ty) is Ok));
            }
        }
    }
}

/// Requesting any of the three generations on a non-record shape yields
/// an empty fragment — zero functions — and never an error.
pub proof fn lemma_non_record_yields_empty(t: SpecTypeDef)
    requires
        t.data is Unsupported,
    ensures
        ctor_fragment(t).functions.len() == 0,
        getters_fragment(t) is Ok && getters_fragment(t)->Ok_0.functions.len() == 0,
        setters_fragment(t).functions.len() == 0,
{
}

} // verus!
