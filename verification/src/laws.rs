//! The properties the generator keeps, each stated and proved over the spec
//! functions that the public contracts use.

use vstd::prelude::*;
use crate::extract::{
    spec_attr_override, spec_display_name, spec_display_name_of, spec_find_override,
};
use crate::generate::{generation_matches, spec_entry_views, DeriveError, FieldEntry, IterImpl};
use crate::model::{Attr, FieldDef, FieldsKind, InputData, StructInput};
use crate::render::{spec_entry_lines, spec_render};

verus! {

/// Order preservation: the generated entry list has one entry per declared
/// field, and its i-th entry pairs the i-th field's display name with that
/// field's identifier — for every field count, the empty list included.
pub proof fn lemma_order_preserved(fields: Seq<FieldDef>, i: int)
    requires
        0 <= i < fields.len(),
    ensures
        spec_entry_views(fields).len() == fields.len(),
        spec_entry_views(fields)[i] == (spec_display_name(fields[i]), fields[i].ident@),
{
}

/// Name resolution: a field's display name is the override where its
/// annotations carry one, and the field's own identifier, unchanged,
/// otherwise.
pub proof fn lemma_name_resolution(f: FieldDef)
    ensures
        spec_find_override(f.attrs@) matches Some(n) ==> spec_display_name(f) == n,
        spec_find_override(f.attrs@) is None ==> spec_display_name(f) == f.ident@,
{
}

/// Determinism: any two results that meet the generator's contract on the
/// same input agree — same outcome, view-equal entries, equal refusal.
pub proof fn lemma_generation_deterministic(
    input: StructInput,
    r1: Result<IterImpl, DeriveError>,
    r2: Result<IterImpl, DeriveError>,
)
    requires
        generation_matches(input, r1),
        generation_matches(input, r2),
    ensures
        r1 is Ok <==> r2 is Ok,
        r1 matches Ok(g1) ==> r2 matches Ok(g2) ==> g1@ == g2@,
        r1 matches Err(e1) ==> r2 matches Err(e2) ==> e1 == e2,
{
}

proof fn lemma_entry_lines_congruent(e1: Seq<FieldEntry>, e2: Seq<FieldEntry>)
    requires
        e1.len() == e2.len(),
        forall|i: int| 0 <= i < e1.len() ==> e1[i]@ == #[trigger] e2[i]@,
    ensures
        spec_entry_lines(e1) == spec_entry_lines(e2),
    decreases e1.len(),
{
    if e1.len() > 0 {
        assert(e1.drop_first() =~= e1.skip(1));
        assert(e2.drop_first() =~= e2.skip(1));
        assert forall|i: int| 0 <= i < e1.drop_first().len() implies e1.drop_first()[i]@
            == #[trigger] e2.drop_first()[i]@ by {
            assert(e1.drop_first()[i] == e1[i + 1]);
            assert(e2.drop_first()[i] == e2[i + 1]);
        }
        lemma_entry_lines_congruent(e1.drop_first(), e2.drop_first());
    }
}

/// Determinism of emission: two generated results with the same view — the
/// same structure name and view-equal entries — render to identical source.
pub proof fn lemma_render_deterministic(g1: IterImpl, g2: IterImpl)
    requires
        g1@ == g2@,
    ensures
        spec_render(g1) == spec_render(g2),
{
    assert(g1.struct_name@ == g2.struct_name@);
    assert(g1@.1.len() == g2@.1.len());
    assert(g1@.1.len() == g1.entries@.len());
    assert(g2@.1.len() == g2.entries@.len());
    assert forall|i: int| 0 <= i < g1.entries@.len() implies g1.entries@[i]@
        == #[trigger] g2.entries@[i]@ by {
        assert(g1@.1[i] == g1.entries@[i]@);
        assert(g2@.1[i] == g2.entries@[i]@);
    }
    lemma_entry_lines_congruent(g1.entries@, g2.entries@);
}

/// Determinism end to end: on one input, any two generator results that meet
/// its contract and succeed emit identical implementation source.
pub proof fn lemma_emitted_source_deterministic(
    input: StructInput,
    r1: Result<IterImpl, DeriveError>,
    r2: Result<IterImpl, DeriveError>,
)
    requires
        generation_matches(input, r1),
        generation_matches(input, r2),
    ensures
        r1 matches Ok(g1) ==> r2 matches Ok(g2) ==> spec_render(g1) == spec_render(g2),
{
    if r1 is Ok && r2 is Ok {
        lemma_render_deterministic(r1->Ok_0, r2->Ok_0);
    }
}

/// Tolerance of inert annotations: an annotation that yields no override — a
/// foreign key, an opaque payload, or a recognized key whose payload holds no
/// well-formed recognized pair — can stand anywhere in the list without
/// changing what the list yields.
pub proof fn lemma_inert_attr_ignored(attrs: Seq<Attr>, i: int, a: Attr)
    requires
        0 <= i <= attrs.len(),
        spec_attr_override(a) is None,
    ensures
        spec_find_override(attrs.insert(i, a)) == spec_find_override(attrs),
    decreases attrs.len(),
{
    let w = attrs.insert(i, a);
    if i == 0 {
        assert(w[0] == a);
        assert(w.drop_first() =~= attrs);
    } else {
        assert(w[0] == attrs[0]);
        assert(w.drop_first() =~= attrs.drop_first().insert(i - 1, a));
        lemma_inert_attr_ignored(attrs.drop_first(), i - 1, a);
    }
}

/// Malformed-annotation tolerance: a field carrying a recognized-key
/// annotation whose payload yields no override gets exactly the display name
/// it would get without that annotation.
pub proof fn lemma_malformed_annotation_tolerated(
    ident: Seq<char>,
    attrs: Seq<Attr>,
    i: int,
    a: Attr,
)
    requires
        0 <= i <= attrs.len(),
        spec_attr_override(a) is None,
    ensures
        spec_display_name_of(ident, attrs.insert(i, a)) == spec_display_name_of(ident, attrs),
{
    lemma_inert_attr_ignored(attrs, i, a);
}

/// Rejection of unsupported shapes: generation succeeds exactly on structs
/// with named fields; an enum, a union, a tuple struct or a unit struct is
/// refused, each with the diagnostic naming its kind.
pub proof fn lemma_unsupported_shapes_refused(
    input: StructInput,
    r: Result<IterImpl, DeriveError>,
)
    requires
        generation_matches(input, r),
    ensures
        r is Ok <==> input.data matches InputData::Struct(FieldsKind::Named(_)),
        input.data is Enum ==> r == Err::<IterImpl, DeriveError>(DeriveError::EnumNotSupported),
        input.data is Union ==> r == Err::<IterImpl, DeriveError>(DeriveError::UnionNotSupported),
        input.data matches InputData::Struct(FieldsKind::Unnamed) ==> r == Err::<
            IterImpl,
            DeriveError,
        >(DeriveError::TupleStructNotSupported),
        input.data matches InputData::Struct(FieldsKind::Unit) ==> r == Err::<
            IterImpl,
            DeriveError,
        >(DeriveError::UnitStructNotSupported),
{
}

} // verus!
