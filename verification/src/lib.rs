//! Accessor and mutator synthesis for annotated record types.
//!
//! A record type carries an optional type-level annotation block, and each of
//! its fields an optional field-level block, in a small directive grammar:
//! five method modes (`get_ref`, `get_copy`, `get_mut`, `set`, `set_with`),
//! a `skip` list, and per-directive visibility and constness arguments.
//! The engine parses the blocks, merges type-wide defaults into each field's
//! explicit directives under skip suppression and ref/copy exclusivity, and
//! renders one method definition per resolved directive.

use vstd::prelude::*;

pub mod ast;
pub mod generate;
pub mod laws;
pub mod text;

use crate::ast::{AnnArg, AnnItem, FieldDef, GsError, SkipSet, TypeBody, TypeDef, Vis};
use crate::generate::{implement, spec_implement, GenMode, GenParams};
use crate::text::{label_mode, spec_label_mode, str_eq};
use vstd::string::StringExecFns;

verus! {

/// The visibility and constness contributed by one nested directive
/// argument: `const` sets constness, `pub` (bare or valued) sets
/// visibility, any other label contributes nothing.
pub open spec fn spec_parse_vis_meta(a: AnnArg) -> Result<(Option<Vis>, Option<bool>), GsError> {
    if a.label@ == "const"@ {
        Ok((None, Some(true)))
    } else if a.label@ == "pub"@ {
        match a.value {
            None => Ok((Some(Vis::Public), None)),
            Some(v) => if v@ == "crate"@ || v@ == "super"@ {
                Ok((Some(Vis::RestrictedToDefiningUnit), None))
            } else if v@ == "self"@ {
                Ok((Some(Vis::RestrictedToParent), None))
            } else {
                Err(GsError::InvalidVisibility)
            },
        }
    } else {
        Ok((None, None))
    }
}

/// Reads one nested directive argument as a visibility or constness
/// setting.
pub fn parse_vis_meta(a: &AnnArg) -> (r: Result<(Option<Vis>, Option<bool>), GsError>)
    ensures
        r == spec_parse_vis_meta(*a),
{
    if str_eq(a.label.as_str(), "const") {
        Ok((None, Some(true)))
    } else if str_eq(a.label.as_str(), "pub") {
        match &a.value {
            None => Ok((Some(Vis::Public), None)),
            Some(v) => {
                if str_eq(v.as_str(), "crate") || str_eq(v.as_str(), "super") {
                    Ok((Some(Vis::RestrictedToDefiningUnit), None))
                } else if str_eq(v.as_str(), "self") {
                    Ok((Some(Vis::RestrictedToParent), None))
                } else {
                    Err(GsError::InvalidVisibility)
                }
            },
        }
    } else {
        Ok((None, None))
    }
}

/// The fold behind [`spec_new_gen_params`]: nested arguments are read in
/// order, later visibility and constness settings replacing earlier ones.
pub open spec fn spec_vis_fold(
    v: Seq<AnnArg>,
    i: int,
    vis: Option<Vis>,
    c: Option<bool>,
) -> Result<(Option<Vis>, Option<bool>), GsError>
    decreases v.len() - i,
{
    if i < 0 || i >= v.len() {
        Ok((vis, c))
    } else {
        match spec_parse_vis_meta(v[i]) {
            Err(e) => Err(e),
            Ok((v2, c2)) => spec_vis_fold(
                v,
                i + 1,
                if v2 is Some { v2 } else { vis },
                if c2 is Some { c2 } else { c },
            ),
        }
    }
}

/// The directive built for one mode label: its nested arguments, if any,
/// decide the requested visibility and constness.
pub open spec fn spec_new_gen_params(
    mode: GenMode,
    args: Option<Vec<AnnArg>>,
) -> Result<GenParams, GsError> {
    match args {
        None => Ok(GenParams { mode, vis: None, is_const: None }),
        Some(v) => match spec_vis_fold(v@, 0, None, None) {
            Err(e) => Err(e),
            Ok((vis, c)) => Ok(GenParams { mode, vis, is_const: c }),
        },
    }
}

/// Builds the directive for one mode label from its nested arguments.
pub fn new_gen_params(mode: GenMode, args: &Option<Vec<AnnArg>>) -> (r: Result<
    GenParams,
    GsError,
>)
    ensures
        r == spec_new_gen_params(mode, *args),
{
    match args.as_ref() {
        None => Ok(GenParams { mode, vis: None, is_const: None }),
        Some(v) => {
            let mut vis: Option<Vis> = None;
            let mut c: Option<bool> = None;
            let mut i: usize = 0;
            while i < v.len()
                invariant
                    i <= v.len(),
                    *args is Some,
                    (*args)->0 == *v,
                    spec_vis_fold(v@, 0, None, None) == spec_vis_fold(v@, i as int, vis, c),
                decreases v.len() - i,
            {
                match parse_vis_meta(&v[i]) {
                    Err(e) => {
                        proof {
                            assert(spec_vis_fold(v@, i as int, vis, c) == Err::<
                                (Option<Vis>, Option<bool>),
                                GsError,
                            >(e));
                        }
                        return Err(e);
                    },
                    Ok((v2, c2)) => {
                        if v2.is_some() {
                            vis = v2;
                        }
                        if c2.is_some() {
                            c = c2;
                        }
                    },
                }
                i += 1;
            }
            Ok(GenParams { mode, vis, is_const: c })
        },
    }
}

/// The fold behind [`spec_parse_skip_attr`] over an explicit `skip`
/// argument list: each argument must name one of the five modes.
pub open spec fn spec_skip_fold(v: Seq<AnnArg>, i: int, acc: SkipSet) -> Result<SkipSet, GsError>
    decreases v.len() - i,
{
    if i < 0 || i >= v.len() {
        Ok(acc)
    } else {
        match spec_label_mode(v[i].label@) {
            None => Err(GsError::InvalidSkipIdentifier),
            Some(m) => spec_skip_fold(v, i + 1, acc.spec_insert(m)),
        }
    }
}

/// The skip set denoted by one `skip` item: a bare `skip` excludes all
/// five modes; `skip(...)` excludes exactly the modes it names.
pub open spec fn spec_parse_skip_attr(args: Option<Vec<AnnArg>>) -> Result<SkipSet, GsError> {
    match args {
        None => Ok(SkipSet::spec_full()),
        Some(v) => spec_skip_fold(v@, 0, SkipSet::spec_empty()),
    }
}

/// Reads the argument list of one `skip` item into a skip set.
pub fn parse_skip_attr(args: &Option<Vec<AnnArg>>) -> (r: Result<SkipSet, GsError>)
    ensures
        r == spec_parse_skip_attr(*args),
{
    match args.as_ref() {
        None => Ok(SkipSet::full()),
        Some(v) => {
            let mut acc = SkipSet::empty();
            let mut i: usize = 0;
            while i < v.len()
                invariant
                    i <= v.len(),
                    *args is Some,
                    (*args)->0 == *v,
                    spec_skip_fold(v@, 0, SkipSet::spec_empty()) == spec_skip_fold(
                        v@,
                        i as int,
                        acc,
                    ),
                decreases v.len() - i,
            {
                match label_mode(v[i].label.as_str()) {
                    None => {
                        proof {
                            assert(spec_skip_fold(v@, i as int, acc) == Err::<SkipSet, GsError>(
                                GsError::InvalidSkipIdentifier,
                            ));
                        }
                        return Err(GsError::InvalidSkipIdentifier);
                    },
                    Some(m) => {
                        acc = acc.insert(m);
                    },
                }
                i += 1;
            }
            Ok(acc)
        },
    }
}

/// Whether some entry of a directive list has the given mode.
pub open spec fn spec_has_mode(s: Seq<GenParams>, m: GenMode) -> bool {
    exists|k: int| 0 <= k < s.len() && s[k].mode == m
}

/// Whether a mode requests a by-reference or by-value read accessor.
pub open spec fn spec_is_ref_copy(m: GenMode) -> bool {
    m == GenMode::GetRef || m == GenMode::GetCopy
}

/// The fold behind the final step of [`spec_parse_attr`]: directives
/// whose mode the skip set excludes are dropped.
pub open spec fn spec_drop_skipped(
    params: Seq<GenParams>,
    i: int,
    acc: Seq<GenParams>,
    skip: SkipSet,
) -> Seq<GenParams>
    decreases params.len() - i,
{
    if i < 0 || i >= params.len() {
        acc
    } else if skip.spec_contains(params[i].mode) {
        spec_drop_skipped(params, i + 1, acc, skip)
    } else {
        spec_drop_skipped(params, i + 1, acc.push(params[i]), skip)
    }
}

/// The fold behind [`spec_parse_attr`]. Mode labels append directives in
/// order, with only the first `get_ref`/`get_copy` kept; `skip` items
/// accumulate into the skip set; any other label is an error. At the end
/// the skipped modes are filtered out of the directive list.
pub open spec fn spec_parse_attr_fold(
    items: Seq<AnnItem>,
    i: int,
    params: Seq<GenParams>,
    skip: SkipSet,
    had_rc: bool,
) -> Result<(Seq<GenParams>, SkipSet), GsError>
    decreases items.len() - i,
{
    if i < 0 || i >= items.len() {
        Ok((spec_drop_skipped(params, 0, Seq::empty(), skip), skip))
    } else {
        let it = items[i];
        if it.label@ == "skip"@ {
            match spec_parse_skip_attr(it.args) {
                Err(e) => Err(e),
                Ok(s) => spec_parse_attr_fold(items, i + 1, params, skip.spec_union(s), had_rc),
            }
        } else if it.label@ == "get_ref"@ {
            if had_rc {
                spec_parse_attr_fold(items, i + 1, params, skip, had_rc)
            } else {
                match spec_new_gen_params(GenMode::GetRef, it.args) {
                    Err(e) => Err(e),
                    Ok(p) => spec_parse_attr_fold(items, i + 1, params.push(p), skip, true),
                }
            }
        } else if it.label@ == "get_copy"@ {
            if had_rc {
                spec_parse_attr_fold(items, i + 1, params, skip, had_rc)
            } else {
                match spec_new_gen_params(GenMode::GetCopy, it.args) {
                    Err(e) => Err(e),
                    Ok(p) => spec_parse_attr_fold(items, i + 1, params.push(p), skip, true),
                }
            }
        } else if it.label@ == "get_mut"@ {
            match spec_new_gen_params(GenMode::GetMut, it.args) {
                Err(e) => Err(e),
                Ok(p) => spec_parse_attr_fold(items, i + 1, params.push(p), skip, had_rc),
            }
        } else if it.label@ == "set"@ {
            match spec_new_gen_params(GenMode::Setter, it.args) {
                Err(e) => Err(e),
                Ok(p) => spec_parse_attr_fold(items, i + 1, params.push(p), skip, had_rc),
            }
        } else if it.label@ == "set_with"@ {
            match spec_new_gen_params(GenMode::SetWith, it.args) {
                Err(e) => Err(e),
                Ok(p) => spec_parse_attr_fold(items, i + 1, params.push(p), skip, had_rc),
            }
        } else {
            Err(GsError::InvalidAttribute)
        }
    }
}

/// The explicit directives and skip set denoted by one annotation block.
pub open spec fn spec_parse_attr(items: Seq<AnnItem>) -> Result<
    (Seq<GenParams>, SkipSet),
    GsError,
> {
    spec_parse_attr_fold(items, 0, Seq::empty(), SkipSet::spec_empty(), false)
}

/// Decodes one annotation block into its explicit directive list and its
/// skip set. Duplicate `get_ref`/`get_copy` labels after the first are
/// silently ignored; directives whose mode is skipped are dropped.
pub fn parse_attr(items: &Vec<AnnItem>) -> (r: Result<(Vec<GenParams>, SkipSet), GsError>)
    ensures
        match (r, spec_parse_attr(items@)) {
            (Ok(v), Ok(s)) => v.0@ == s.0 && v.1 == s.1,
            (Err(e), Err(se)) => e == se,
            _ => false,
        },
{
    let mut params: Vec<GenParams> = Vec::new();
    let mut skip = SkipSet::empty();
    let mut had_rc = false;
    let mut i: usize = 0;
    while i < items.len()
        invariant
            i <= items.len(),
            spec_parse_attr(items@) == spec_parse_attr_fold(
                items@,
                i as int,
                params@,
                skip,
                had_rc,
            ),
        decreases items.len() - i,
    {
        let it = &items[i];
        if str_eq(it.label.as_str(), "skip") {
            match parse_skip_attr(&it.args) {
                Err(e) => {
                    return Err(e);
                },
                Ok(s) => {
                    skip = skip.union(s);
                },
            }
        } else if str_eq(it.label.as_str(), "get_ref") {
            if !had_rc {
                match new_gen_params(GenMode::GetRef, &it.args) {
                    Err(e) => {
                        return Err(e);
                    },
                    Ok(p) => {
                        params.push(p);
                        had_rc = true;
                    },
                }
            }
        } else if str_eq(it.label.as_str(), "get_copy") {
            if !had_rc {
                match new_gen_params(GenMode::GetCopy, &it.args) {
                    Err(e) => {
                        return Err(e);
                    },
                    Ok(p) => {
                        params.push(p);
                        had_rc = true;
                    },
                }
            }
        } else if str_eq(it.label.as_str(), "get_mut") {
            match new_gen_params(GenMode::GetMut, &it.args) {
                Err(e) => {
                    return Err(e);
                },
                Ok(p) => {
                    params.push(p);
                },
            }
        } else if str_eq(it.label.as_str(), "set") {
            match new_gen_params(GenMode::Setter, &it.args) {
                Err(e) => {
                    return Err(e);
                },
                Ok(p) => {
                    params.push(p);
                },
            }
        } else if str_eq(it.label.as_str(), "set_with") {
            match new_gen_params(GenMode::SetWith, &it.args) {
                Err(e) => {
                    return Err(e);
                },
                Ok(p) => {
                    params.push(p);
                },
            }
        } else {
            return Err(GsError::InvalidAttribute);
        }
        i += 1;
    }
    let mut out: Vec<GenParams> = Vec::new();
    let mut j: usize = 0;
    while j < params.len()
        invariant
            j <= params.len(),
            spec_drop_skipped(params@, 0, Seq::empty(), skip) == spec_drop_skipped(
                params@,
                j as int,
                out@,
                skip,
            ),
        decreases params.len() - j,
    {
        if !skip.contains(params[j].mode) {
            out.push(params[j]);
        }
        j += 1;
    }
    Ok((out, skip))
}

/// The fold behind the ref-over-copy pruning of
/// [`spec_new_global_gen_params_list`]: `get_ref` directives are dropped.
pub open spec fn spec_drop_get_ref(s: Seq<GenParams>, i: int, acc: Seq<GenParams>) -> Seq<
    GenParams,
>
    decreases s.len() - i,
{
    if i < 0 || i >= s.len() {
        acc
    } else if s[i].mode == GenMode::GetRef {
        spec_drop_get_ref(s, i + 1, acc)
    } else {
        spec_drop_get_ref(s, i + 1, acc.push(s[i]))
    }
}

/// The type-wide default directive list denoted by the type-level
/// annotation block: its parse result, with `skip` refused outright, and
/// with every `get_ref` removed when a `get_copy` is present.
pub open spec fn spec_new_global_gen_params_list(attr: Option<Vec<AnnItem>>) -> Result<
    Seq<GenParams>,
    GsError,
> {
    match attr {
        None => Ok(Seq::empty()),
        Some(items) => match spec_parse_attr(items@) {
            Err(e) => Err(e),
            Ok((ps, sk)) => if !sk.spec_is_empty() {
                Err(GsError::TypeLevelSkip)
            } else if spec_has_mode(ps, GenMode::GetCopy) {
                Ok(spec_drop_get_ref(ps, 0, Seq::empty()))
            } else {
                Ok(ps)
            },
        },
    }
}

/// Whether some entry of a directive list has the given mode.
pub fn has_mode(v: &Vec<GenParams>, m: GenMode) -> (r: bool)
    ensures
        r == spec_has_mode(v@, m),
{
    let mut i: usize = 0;
    while i < v.len()
        invariant
            i <= v.len(),
            forall|k: int| 0 <= k < i ==> v@[k].mode != m,
        decreases v.len() - i,
    {
        if v[i].mode == m {
            return true;
        }
        i += 1;
    }
    false
}

/// Builds the type-wide default directive list from the type-level
/// annotation block, if one is present. A `skip` there is refused, and a
/// `get_copy` default silently removes every `get_ref` default.
pub fn new_global_gen_params_list(attr: &Option<Vec<AnnItem>>) -> (r: Result<
    Vec<GenParams>,
    GsError,
>)
    ensures
        match (r, spec_new_global_gen_params_list(*attr)) {
            (Ok(v), Ok(s)) => v@ == s,
            (Err(e), Err(se)) => e == se,
            _ => false,
        },
{
    match attr.as_ref() {
        None => Ok(Vec::new()),
        Some(items) => {
            match parse_attr(items) {
                Err(e) => Err(e),
                Ok((ps, sk)) => {
                    if !sk.is_empty() {
                        Err(GsError::TypeLevelSkip)
                    } else if has_mode(&ps, GenMode::GetCopy) {
                        let mut out: Vec<GenParams> = Vec::new();
                        let mut i: usize = 0;
                        while i < ps.len()
                            invariant
                                i <= ps.len(),
                                spec_drop_get_ref(ps@, 0, Seq::empty()) == spec_drop_get_ref(
                                    ps@,
                                    i as int,
                                    out@,
                                ),
                            decreases ps.len() - i,
                        {
                            if !(ps[i].mode == GenMode::GetRef) {
                                out.push(ps[i]);
                            }
                            i += 1;
                        }
                        Ok(out)
                    } else {
                        Ok(ps)
                    }
                },
            }
        },
    }
}

/// A fragment of header text, preceded by one space unless it is empty.
pub open spec fn spec_opt_sp(s: Seq<char>) -> Seq<char> {
    if s.len() == 0 {
        s
    } else {
        " "@ + s
    }
}

/// The fold behind [`spec_produce`]: each field's generated methods,
/// concatenated in declaration order.
pub open spec fn spec_fields_fold(
    fs: Seq<FieldDef>,
    g: Seq<GenParams>,
    i: int,
    acc: Seq<char>,
) -> Result<Seq<char>, GsError>
    decreases fs.len() - i,
{
    if i < 0 || i >= fs.len() {
        Ok(acc)
    } else {
        match spec_implement(fs[i], g) {
            Err(e) => Err(e),
            Ok(s) => spec_fields_fold(fs, g, i + 1, acc + s),
        }
    }
}

/// The whole output for one annotated type: one implementation block,
/// scoped to the type and its generic parameters, holding every field's
/// generated methods in order. Only record-shaped types are supported.
pub open spec fn spec_produce(t: TypeDef) -> Result<Seq<char>, GsError> {
    match t.body {
        TypeBody::Other => Err(GsError::NotAStruct),
        TypeBody::Record(fields) => match spec_new_global_gen_params_list(t.attr) {
            Err(e) => Err(e),
            Ok(g) => match spec_fields_fold(fields@, g, 0, Seq::empty()) {
                Err(e) => Err(e),
                Ok(body) => Ok(
                    "impl"@ + spec_opt_sp(t.generics_impl@) + " "@ + t.name@ + t.generics_ty@
                        + spec_opt_sp(t.where_clause@) + " {\n"@ + body + "}\n"@,
                ),
            },
        },
    }
}

/// Runs the whole engine on one annotated type definition: builds the
/// type-wide defaults, generates every field's methods, and renders the
/// enclosing implementation block. Fails on any grammar error, on a
/// type-level `skip`, and on any non-record type shape.
pub fn produce(t: &TypeDef) -> (r: Result<String, GsError>)
    ensures
        match (r, spec_produce(*t)) {
            (Ok(s), Ok(ss)) => s@ == ss,
            (Err(e), Err(se)) => e == se,
            _ => false,
        },
{
    let fields = match &t.body {
        TypeBody::Record(fields) => fields,
        TypeBody::Other => {
            return Err(GsError::NotAStruct);
        },
    };
    let g = match new_global_gen_params_list(&t.attr) {
        Ok(g) => g,
        Err(e) => {
            return Err(e);
        },
    };
    let mut body = String::new();
    let mut i: usize = 0;
    while i < fields.len()
        invariant
            i <= fields.len(),
            t.body == TypeBody::Record(*fields),
            spec_new_global_gen_params_list(t.attr) == Ok::<Seq<GenParams>, GsError>(g@),
            spec_fields_fold(fields@, g@, 0, Seq::empty()) == spec_fields_fold(
                fields@,
                g@,
                i as int,
                body@,
            ),
        decreases fields.len() - i,
    {
        match implement(&fields[i], &g) {
            Err(e) => {
                return Err(e);
            },
            Ok(s) => {
                body.append(s.as_str());
            },
        }
        i += 1;
    }
    let mut out = String::from_str("impl");
    if !t.generics_impl.as_str().is_empty() {
        out.append(" ");
        out.append(t.generics_impl.as_str());
    }
    out.append(" ");
    out.append(t.name.as_str());
    out.append(t.generics_ty.as_str());
    if !t.where_clause.as_str().is_empty() {
        out.append(" ");
        out.append(t.where_clause.as_str());
    }
    out.append(" {\n");
    out.append(body.as_str());
    out.append("}\n");
    proof {
        assert(out@ =~= "impl"@ + spec_opt_sp(t.generics_impl@) + " "@ + t.name@ + t.generics_ty@
            + spec_opt_sp(t.where_clause@) + " {\n"@ + body@ + "}\n"@);
    }
    Ok(out)
}

} // verus!
