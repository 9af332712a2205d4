//! The engine's global guarantees, proved over the specification
//! functions of the parser, the defaults builder, and the resolver.

use vstd::prelude::*;

use crate::ast::{AnnItem, FieldDef, GsError, SkipSet, Vis};
use crate::generate::{
    spec_directive_vis, spec_implement, spec_merge, spec_resolve, GenMode, GenParams,
};
use crate::{
    spec_drop_get_ref, spec_drop_skipped, spec_has_mode, spec_is_ref_copy,
    spec_new_gen_params, spec_new_global_gen_params_list, spec_parse_attr, spec_parse_attr_fold,
    spec_parse_skip_attr, spec_produce, TypeDef,
};

verus! {

/// How many entries of a directive list, from position `i` on, request a
/// read accessor (`get_ref` or `get_copy`).
pub open spec fn spec_rc_count(s: Seq<GenParams>, i: int) -> nat
    decreases s.len() - i,
{
    if i < 0 || i >= s.len() {
        0
    } else {
        (if spec_is_ref_copy(s[i].mode) {
            1nat
        } else {
            0nat
        }) + spec_rc_count(s, i + 1)
    }
}

proof fn lemma_rc_count_push(s: Seq<GenParams>, x: GenParams, i: int)
    requires
        0 <= i <= s.len(),
    ensures
        spec_rc_count(s.push(x), i) == spec_rc_count(s, i) + (if spec_is_ref_copy(x.mode) {
            1nat
        } else {
            0nat
        }),
    decreases s.len() - i,
{
    if i == s.len() {
        assert(s.push(x)[i] == x);
        assert(spec_rc_count(s.push(x), i + 1) == 0);
        assert(spec_rc_count(s, i) == 0);
    } else {
        assert(s.push(x)[i] == s[i]);
        lemma_rc_count_push(s, x, i + 1);
    }
}

proof fn lemma_rc_count_zero(s: Seq<GenParams>, i: int)
    requires
        0 <= i <= s.len(),
        forall|k: int| i <= k < s.len() ==> !spec_is_ref_copy(s[k].mode),
    ensures
        spec_rc_count(s, i) == 0,
    decreases s.len() - i,
{
    if i < s.len() {
        lemma_rc_count_zero(s, i + 1);
    }
}

proof fn lemma_rc_count_one(s: Seq<GenParams>, i: int, a: int)
    requires
        0 <= i <= a < s.len(),
        spec_is_ref_copy(s[a].mode),
    ensures
        spec_rc_count(s, i) >= 1,
    decreases s.len() - i,
{
    if i < a {
        lemma_rc_count_one(s, i + 1, a);
    }
}

proof fn lemma_rc_count_two(s: Seq<GenParams>, i: int, a: int, b: int)
    requires
        0 <= i <= a < b < s.len(),
        spec_is_ref_copy(s[a].mode),
        spec_is_ref_copy(s[b].mode),
    ensures
        spec_rc_count(s, i) >= 2,
    decreases s.len() - i,
{
    if i < a {
        lemma_rc_count_two(s, i + 1, a, b);
    } else {
        lemma_rc_count_one(s, i + 1, b);
    }
}

proof fn lemma_drop_skipped_rc(params: Seq<GenParams>, i: int, acc: Seq<GenParams>, skip: SkipSet)
    requires
        0 <= i <= params.len(),
    ensures
        spec_rc_count(spec_drop_skipped(params, i, acc, skip), 0) <= spec_rc_count(acc, 0)
            + spec_rc_count(params, i),
    decreases params.len() - i,
{
    if i < params.len() {
        if skip.spec_contains(params[i].mode) {
            lemma_drop_skipped_rc(params, i + 1, acc, skip);
        } else {
            lemma_rc_count_push(acc, params[i], 0);
            lemma_drop_skipped_rc(params, i + 1, acc.push(params[i]), skip);
        }
    }
}

proof fn lemma_parse_fold_rc(
    items: Seq<AnnItem>,
    i: int,
    params: Seq<GenParams>,
    skip: SkipSet,
    had_rc: bool,
)
    requires
        0 <= i <= items.len(),
        spec_rc_count(params, 0) <= (if had_rc {
            1nat
        } else {
            0nat
        }),
    ensures
        spec_parse_attr_fold(items, i, params, skip, had_rc) matches Ok(p) ==> spec_rc_count(
            p.0,
            0,
        ) <= 1,
    decreases items.len() - i,
{
    if i >= items.len() {
        lemma_drop_skipped_rc(params, 0, Seq::empty(), skip);
    } else {
        let it = items[i];
        if it.label@ == "skip"@ {
            if spec_parse_skip_attr(it.args) is Ok {
                let s = spec_parse_skip_attr(it.args)->Ok_0;
                lemma_parse_fold_rc(items, i + 1, params, skip.spec_union(s), had_rc);
            }
        } else if it.label@ == "get_ref"@ {
            if had_rc {
                lemma_parse_fold_rc(items, i + 1, params, skip, had_rc);
            } else if spec_new_gen_params(GenMode::GetRef, it.args) is Ok {
                let p = spec_new_gen_params(GenMode::GetRef, it.args)->Ok_0;
                lemma_rc_count_push(params, p, 0);
                lemma_parse_fold_rc(items, i + 1, params.push(p), skip, true);
            }
        } else if it.label@ == "get_copy"@ {
            if had_rc {
                lemma_parse_fold_rc(items, i + 1, params, skip, had_rc);
            } else if spec_new_gen_params(GenMode::GetCopy, it.args) is Ok {
                let p = spec_new_gen_params(GenMode::GetCopy, it.args)->Ok_0;
                lemma_rc_count_push(params, p, 0);
                lemma_parse_fold_rc(items, i + 1, params.push(p), skip, true);
            }
        } else if it.label@ == "get_mut"@ {
            if spec_new_gen_params(GenMode::GetMut, it.args) is Ok {
                let p = spec_new_gen_params(GenMode::GetMut, it.args)->Ok_0;
                lemma_rc_count_push(params, p, 0);
                lemma_parse_fold_rc(items, i + 1, params.push(p), skip, had_rc);
            }
        } else if it.label@ == "set"@ {
            if spec_new_gen_params(GenMode::Setter, it.args) is Ok {
                let p = spec_new_gen_params(GenMode::Setter, it.args)->Ok_0;
                lemma_rc_count_push(params, p, 0);
                lemma_parse_fold_rc(items, i + 1, params.push(p), skip, had_rc);
            }
        } else if it.label@ == "set_with"@ {
            if spec_new_gen_params(GenMode::SetWith, it.args) is Ok {
                let p = spec_new_gen_params(GenMode::SetWith, it.args)->Ok_0;
                lemma_rc_count_push(params, p, 0);
                lemma_parse_fold_rc(items, i + 1, params.push(p), skip, had_rc);
            }
        }
    }
}

/// A parsed annotation block holds at most one read-accessor directive.
pub proof fn lemma_parse_at_most_one_rc(items: Seq<AnnItem>)
    ensures
        spec_parse_attr(items) matches Ok(p) ==> spec_rc_count(p.0, 0) <= 1,
{
    lemma_parse_fold_rc(items, 0, Seq::empty(), SkipSet::spec_empty(), false);
}

proof fn lemma_drop_get_ref_rc(s: Seq<GenParams>, i: int, acc: Seq<GenParams>)
    requires
        0 <= i <= s.len(),
    ensures
        spec_rc_count(spec_drop_get_ref(s, i, acc), 0) <= spec_rc_count(acc, 0) + spec_rc_count(
            s,
            i,
        ),
    decreases s.len() - i,
{
    if i < s.len() {
        if s[i].mode == GenMode::GetRef {
            lemma_drop_get_ref_rc(s, i + 1, acc);
        } else {
            lemma_rc_count_push(acc, s[i], 0);
            lemma_drop_get_ref_rc(s, i + 1, acc.push(s[i]));
        }
    }
}

/// The type-wide default list holds at most one read-accessor directive.
pub proof fn lemma_global_at_most_one_rc(attr: Option<Vec<AnnItem>>)
    ensures
        spec_new_global_gen_params_list(attr) matches Ok(g) ==> spec_rc_count(g, 0) <= 1,
{
    if attr is Some {
        let items = attr->0;
        lemma_parse_at_most_one_rc(items@);
        if spec_parse_attr(items@) is Ok {
            let ps = spec_parse_attr(items@)->Ok_0.0;
            lemma_drop_get_ref_rc(ps, 0, Seq::empty());
        }
    }
}

proof fn lemma_merge_rc(
    global: Seq<GenParams>,
    i: int,
    acc: Seq<GenParams>,
    skip: SkipSet,
    had_rc: bool,
)
    requires
        0 <= i <= global.len(),
    ensures
        spec_rc_count(spec_merge(global, i, acc, skip, had_rc), 0) <= spec_rc_count(acc, 0) + (
        if had_rc {
            0nat
        } else {
            spec_rc_count(global, i)
        }),
    decreases global.len() - i,
{
    if i < global.len() {
        let g = global[i];
        if !skip.spec_contains(g.mode) && !spec_has_mode(acc, g.mode) && !(had_rc
            && spec_is_ref_copy(g.mode)) {
            lemma_rc_count_push(acc, g, 0);
            lemma_merge_rc(global, i + 1, acc.push(g), skip, had_rc);
        } else {
            lemma_merge_rc(global, i + 1, acc, skip, had_rc);
        }
    }
}

/// A resolved directive list built from an explicit list and a default
/// list with at most one read accessor each holds at most one itself.
pub proof fn lemma_resolve_at_most_one_rc(
    explicit: Seq<GenParams>,
    skip: SkipSet,
    global: Seq<GenParams>,
)
    requires
        spec_rc_count(explicit, 0) <= 1,
        spec_rc_count(global, 0) <= 1,
    ensures
        spec_rc_count(spec_resolve(explicit, skip, global), 0) <= 1,
{
    let had_rc = spec_has_mode(explicit, GenMode::GetRef) || spec_has_mode(
        explicit,
        GenMode::GetCopy,
    );
    if !had_rc {
        assert forall|k: int| 0 <= k < explicit.len() implies !spec_is_ref_copy(
            explicit[k].mode,
        ) by {
            assert(explicit[k].mode != GenMode::GetRef);
            assert(explicit[k].mode != GenMode::GetCopy);
        }
        lemma_rc_count_zero(explicit, 0);
    }
    lemma_merge_rc(global, 0, explicit, skip, had_rc);
}

/// A field's resolved directive list never requests both a by-reference
/// and a by-value read accessor, for any field annotation block and any
/// type-level annotation block that the grammar accepts.
pub proof fn lemma_ref_copy_exclusive(items: Seq<AnnItem>, attr: Option<Vec<AnnItem>>)
    ensures
        spec_parse_attr(items) matches Ok(p) ==> spec_new_global_gen_params_list(
            attr,
        ) matches Ok(g) ==> !(spec_has_mode(spec_resolve(p.0, p.1, g), GenMode::GetRef)
            && spec_has_mode(spec_resolve(p.0, p.1, g), GenMode::GetCopy)),
{
    if spec_parse_attr(items) is Ok && spec_new_global_gen_params_list(attr) is Ok {
        let p = spec_parse_attr(items)->Ok_0;
        let g = spec_new_global_gen_params_list(attr)->Ok_0;
        lemma_parse_at_most_one_rc(items);
        lemma_global_at_most_one_rc(attr);
        lemma_resolve_at_most_one_rc(p.0, p.1, g);
        let r = spec_resolve(p.0, p.1, g);
        if spec_has_mode(r, GenMode::GetRef) && spec_has_mode(r, GenMode::GetCopy) {
            let a: int = choose|k: int| 0 <= k < r.len() && r[k].mode == GenMode::GetRef;
            let b: int = choose|k: int| 0 <= k < r.len() && r[k].mode == GenMode::GetCopy;
            if a < b {
                lemma_rc_count_two(r, 0, a, b);
            } else {
                lemma_rc_count_two(r, 0, b, a);
            }
        }
    }
}

proof fn lemma_drop_skipped_no_skip(
    params: Seq<GenParams>,
    i: int,
    acc: Seq<GenParams>,
    skip: SkipSet,
    m: GenMode,
)
    requires
        0 <= i <= params.len(),
        skip.spec_contains(m),
        !spec_has_mode(acc, m),
    ensures
        !spec_has_mode(spec_drop_skipped(params, i, acc, skip), m),
    decreases params.len() - i,
{
    if i < params.len() {
        if skip.spec_contains(params[i].mode) {
            lemma_drop_skipped_no_skip(params, i + 1, acc, skip, m);
        } else {
            let acc2 = acc.push(params[i]);
            assert forall|k: int| 0 <= k < acc2.len() implies acc2[k].mode != m by {
                if k < acc.len() {
                    assert(acc2[k] == acc[k]);
                } else {
                    assert(acc2[k] == params[i]);
                }
            }
            lemma_drop_skipped_no_skip(params, i + 1, acc2, skip, m);
        }
    }
}

proof fn lemma_parse_fold_skip(
    items: Seq<AnnItem>,
    i: int,
    params: Seq<GenParams>,
    skip: SkipSet,
    had_rc: bool,
    m: GenMode,
)
    requires
        0 <= i <= items.len(),
    ensures
        spec_parse_attr_fold(items, i, params, skip, had_rc) matches Ok(p) ==> (p.1.spec_contains(
            m,
        ) ==> !spec_has_mode(p.0, m)),
    decreases items.len() - i,
{
    if i >= items.len() {
        if skip.spec_contains(m) {
            lemma_drop_skipped_no_skip(params, 0, Seq::empty(), skip, m);
        }
    } else {
        let it = items[i];
        if it.label@ == "skip"@ {
            if spec_parse_skip_attr(it.args) is Ok {
                let s = spec_parse_skip_attr(it.args)->Ok_0;
                lemma_parse_fold_skip(items, i + 1, params, skip.spec_union(s), had_rc, m);
            }
        } else if it.label@ == "get_ref"@ {
            if had_rc {
                lemma_parse_fold_skip(items, i + 1, params, skip, had_rc, m);
            } else if spec_new_gen_params(GenMode::GetRef, it.args) is Ok {
                let p = spec_new_gen_params(GenMode::GetRef, it.args)->Ok_0;
                lemma_parse_fold_skip(items, i + 1, params.push(p), skip, true, m);
            }
        } else if it.label@ == "get_copy"@ {
            if had_rc {
                lemma_parse_fold_skip(items, i + 1, params, skip, had_rc, m);
            } else if spec_new_gen_params(GenMode::GetCopy, it.args) is Ok {
                let p = spec_new_gen_params(GenMode::GetCopy, it.args)->Ok_0;
                lemma_parse_fold_skip(items, i + 1, params.push(p), skip, true, m);
            }
        } else if it.label@ == "get_mut"@ {
            if spec_new_gen_params(GenMode::GetMut, it.args) is Ok {
                let p = spec_new_gen_params(GenMode::GetMut, it.args)->Ok_0;
                lemma_parse_fold_skip(items, i + 1, params.push(p), skip, had_rc, m);
            }
        } else if it.label@ == "set"@ {
            if spec_new_gen_params(GenMode::Setter, it.args) is Ok {
                let p = spec_new_gen_params(GenMode::Setter, it.args)->Ok_0;
                lemma_parse_fold_skip(items, i + 1, params.push(p), skip, had_rc, m);
            }
        } else if it.label@ == "set_with"@ {
            if spec_new_gen_params(GenMode::SetWith, it.args) is Ok {
                let p = spec_new_gen_params(GenMode::SetWith, it.args)->Ok_0;
                lemma_parse_fold_skip(items, i + 1, params.push(p), skip, had_rc, m);
            }
        }
    }
}

proof fn lemma_merge_no_skipped_mode(
    global: Seq<GenParams>,
    i: int,
    acc: Seq<GenParams>,
    skip: SkipSet,
    had_rc: bool,
    m: GenMode,
)
    requires
        0 <= i <= global.len(),
        skip.spec_contains(m),
        !spec_has_mode(acc, m),
    ensures
        !spec_has_mode(spec_merge(global, i, acc, skip, had_rc), m),
    decreases global.len() - i,
{
    if i < global.len() {
        let g = global[i];
        if !skip.spec_contains(g.mode) && !spec_has_mode(acc, g.mode) && !(had_rc
            && spec_is_ref_copy(g.mode)) {
            let acc2 = acc.push(g);
            assert forall|k: int| 0 <= k < acc2.len() implies acc2[k].mode != m by {
                if k < acc.len() {
                    assert(acc2[k] == acc[k]);
                } else {
                    assert(acc2[k] == g);
                }
            }
            lemma_merge_no_skipped_mode(global, i + 1, acc2, skip, had_rc, m);
        } else {
            lemma_merge_no_skipped_mode(global, i + 1, acc, skip, had_rc, m);
        }
    }
}

/// Skip dominance: when a field's annotation block skips a mode, that
/// field's resolved directive list never holds that mode, whatever the
/// type-wide defaults request.
pub proof fn lemma_skip_dominance(items: Seq<AnnItem>, global: Seq<GenParams>, m: GenMode)
    ensures
        spec_parse_attr(items) matches Ok(p) ==> (p.1.spec_contains(m) ==> !spec_has_mode(
            spec_resolve(p.0, p.1, global),
            m,
        )),
{
    if spec_parse_attr(items) is Ok {
        let p = spec_parse_attr(items)->Ok_0;
        if p.1.spec_contains(m) {
            lemma_parse_fold_skip(items, 0, Seq::empty(), SkipSet::spec_empty(), false, m);
            let had_rc = spec_has_mode(p.0, GenMode::GetRef) || spec_has_mode(
                p.0,
                GenMode::GetCopy,
            );
            lemma_merge_no_skipped_mode(global, 0, p.0, p.1, had_rc, m);
        }
    }
}

proof fn lemma_merge_prefix(
    global: Seq<GenParams>,
    i: int,
    acc: Seq<GenParams>,
    skip: SkipSet,
    had_rc: bool,
)
    requires
        0 <= i <= global.len(),
    ensures
        spec_merge(global, i, acc, skip, had_rc).len() >= acc.len(),
        forall|j: int|
            0 <= j < acc.len() ==> spec_merge(global, i, acc, skip, had_rc)[j] == acc[j],
    decreases global.len() - i,
{
    if i < global.len() {
        let g = global[i];
        if !skip.spec_contains(g.mode) && !spec_has_mode(acc, g.mode) && !(had_rc
            && spec_is_ref_copy(g.mode)) {
            let acc2 = acc.push(g);
            lemma_merge_prefix(global, i + 1, acc2, skip, had_rc);
            let res = spec_merge(global, i, acc, skip, had_rc);
            assert(res == spec_merge(global, i + 1, acc2, skip, had_rc));
            assert forall|j: int| 0 <= j < acc.len() implies res[j] == acc[j] by {
                assert(res[j] == acc2[j]);
                assert(acc2[j] == acc[j]);
            }
        } else {
            lemma_merge_prefix(global, i + 1, acc, skip, had_rc);
        }
    }
}

proof fn lemma_merge_no_new_mode(
    global: Seq<GenParams>,
    i: int,
    acc: Seq<GenParams>,
    skip: SkipSet,
    had_rc: bool,
    m: GenMode,
)
    requires
        0 <= i <= global.len(),
        spec_has_mode(acc, m),
    ensures
        forall|j: int|
            acc.len() <= j < spec_merge(global, i, acc, skip, had_rc).len() ==> spec_merge(
                global,
                i,
                acc,
                skip,
                had_rc,
            )[j].mode != m,
    decreases global.len() - i,
{
    if i < global.len() {
        let g = global[i];
        if !skip.spec_contains(g.mode) && !spec_has_mode(acc, g.mode) && !(had_rc
            && spec_is_ref_copy(g.mode)) {
            assert(g.mode != m);
            let acc2 = acc.push(g);
            assert(spec_has_mode(acc2, m)) by {
                let w: int = choose|k: int| 0 <= k < acc.len() && acc[k].mode == m;
                assert(acc2[w].mode == m);
            }
            lemma_merge_no_new_mode(global, i + 1, acc2, skip, had_rc, m);
            lemma_merge_prefix(global, i + 1, acc2, skip, had_rc);
            let res = spec_merge(global, i, acc, skip, had_rc);
            assert(res == spec_merge(global, i + 1, acc2, skip, had_rc));
            assert forall|j: int| acc.len() <= j < res.len() implies res[j].mode != m by {
                if j == acc.len() {
                    assert(res[j] == acc2[j]);
                    assert(acc2[j] == g);
                }
            }
        } else {
            lemma_merge_no_new_mode(global, i + 1, acc, skip, had_rc, m);
        }
    }
}

/// Explicit-over-default precedence: when a field explicitly declares a
/// mode exactly once, the resolved list keeps that directive, unchanged
/// and at its position, and no default of the same mode is added.
pub proof fn lemma_explicit_precedence(
    explicit: Seq<GenParams>,
    skip: SkipSet,
    global: Seq<GenParams>,
    m: GenMode,
    k: int,
)
    requires
        0 <= k < explicit.len(),
        explicit[k].mode == m,
        forall|j: int| 0 <= j < explicit.len() && j != k ==> explicit[j].mode != m,
    ensures
        spec_resolve(explicit, skip, global).len() >= explicit.len(),
        spec_resolve(explicit, skip, global)[k] == explicit[k],
        forall|j: int|
            0 <= j < spec_resolve(explicit, skip, global).len() && j != k ==> spec_resolve(
                explicit,
                skip,
                global,
            )[j].mode != m,
{
    let had_rc = spec_has_mode(explicit, GenMode::GetRef) || spec_has_mode(
        explicit,
        GenMode::GetCopy,
    );
    lemma_merge_prefix(global, 0, explicit, skip, had_rc);
    assert(spec_has_mode(explicit, m)) by {
        assert(explicit[k].mode == m);
    }
    lemma_merge_no_new_mode(global, 0, explicit, skip, had_rc, m);
    let r = spec_resolve(explicit, skip, global);
    assert forall|j: int| 0 <= j < r.len() && j != k implies r[j].mode != m by {
        if j < explicit.len() {
            assert(r[j] == explicit[j]);
        }
    }
}

/// A field with no annotation block at all generates no methods,
/// whatever the type-wide defaults are.
pub proof fn lemma_unannotated_field_no_methods(field: FieldDef, global: Seq<GenParams>)
    requires
        field.attr is None,
    ensures
        spec_implement(field, global) == Ok::<Seq<char>, GsError>(Seq::<char>::empty()),
{
}

/// Generation is deterministic: running the engine twice on one and the
/// same type definition yields the identical output.
pub proof fn lemma_generation_deterministic(t1: TypeDef, t2: TypeDef)
    requires
        t1 == t2,
    ensures
        spec_produce(t1) == spec_produce(t2),
{
}

/// Visibility inheritance: a directive with unset visibility resolves to
/// the field's own declared visibility.
pub proof fn lemma_visibility_inheritance(p: GenParams, field_vis: Vis)
    requires
        p.vis is None,
    ensures
        spec_directive_vis(p, field_vis) == field_vis,
{
}

} // verus!
