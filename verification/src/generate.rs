//! Method synthesis: the five generation modes, their name affixes, the
//! merge of type-wide defaults into a field's explicit directives, and the
//! rendering of one method definition per resolved directive.

use vstd::prelude::*;
use vstd::string::*;

use crate::ast::{FieldDef, GsError, SkipSet, Vis};
use crate::text::{spec_unraw, unraw};
use crate::{has_mode, parse_attr, spec_has_mode, spec_is_ref_copy, spec_parse_attr};

verus! {

/// The closed set of method shapes the engine can generate.
#[derive(Clone, Copy, Debug, Hash, PartialEq, Eq, Structural)]
pub enum GenMode {
    GetRef,
    GetCopy,
    GetMut,
    Setter,
    SetWith,
}

/// One requested method for a field: its mode, and the visibility and
/// constness arguments of the directive, where given.
#[derive(Clone, Copy, Debug, PartialEq, Eq, Structural)]
pub struct GenParams {
    pub mode: GenMode,
    pub vis: Option<Vis>,
    pub is_const: Option<bool>,
}

impl GenMode {
    /// The name prefix of methods of this mode.
    pub open spec fn spec_prefix(self) -> Seq<char> {
        match self {
            GenMode::GetRef | GenMode::GetCopy | GenMode::GetMut => ""@,
            GenMode::Setter => "set_"@,
            GenMode::SetWith => "with_"@,
        }
    }

    /// The name suffix of methods of this mode.
    pub open spec fn spec_suffix(self) -> Seq<char> {
        match self {
            GenMode::GetRef | GenMode::GetCopy | GenMode::Setter | GenMode::SetWith => ""@,
            GenMode::GetMut => "_mut"@,
        }
    }

    /// All five modes, in their canonical order.
    pub fn list() -> (r: [GenMode; 5])
        ensures
            r@ == seq![
                GenMode::GetRef,
                GenMode::GetCopy,
                GenMode::GetMut,
                GenMode::Setter,
                GenMode::SetWith,
            ],
    {
        let r = [GenMode::GetRef, GenMode::GetCopy, GenMode::GetMut, GenMode::Setter, GenMode::SetWith];
        proof {
            assert(r@ =~= seq![
                GenMode::GetRef,
                GenMode::GetCopy,
                GenMode::GetMut,
                GenMode::Setter,
                GenMode::SetWith,
            ]);
        }
        r
    }

    pub fn prefix(self) -> (r: &'static str)
        ensures
            r@ == self.spec_prefix(),
    {
        match self {
            GenMode::GetRef | GenMode::GetCopy | GenMode::GetMut => "",
            GenMode::Setter => "set_",
            GenMode::SetWith => "with_",
        }
    }

    pub fn suffix(self) -> (r: &'static str)
        ensures
            r@ == self.spec_suffix(),
    {
        match self {
            GenMode::GetRef | GenMode::GetCopy | GenMode::Setter | GenMode::SetWith => "",
            GenMode::GetMut => "_mut",
        }
    }
}

/// One synthesized method, before rendering: its name, shape, resolved
/// visibility and constness, and the field data it reads.
pub struct MethodDescriptor {
    pub name: String,
    pub mode: GenMode,
    pub vis: Vis,
    pub is_const: bool,
    pub doc: Vec<String>,
    pub field_name: String,
    pub ty: String,
}

/// The visibility a directive resolves to: its own, or the field's
/// declared visibility when unset.
pub open spec fn spec_directive_vis(p: GenParams, field_vis: Vis) -> Vis {
    match p.vis {
        Some(v) => v,
        None => field_vis,
    }
}

/// The constness a directive resolves to: its own, or plain when unset.
pub open spec fn spec_directive_const(p: GenParams) -> bool {
    match p.is_const {
        Some(c) => c,
        None => false,
    }
}

/// The name of the method a mode generates for a field: the field name
/// verbatim when the mode has no affixes, else prefix and suffix around
/// the unescaped field name.
pub open spec fn spec_method_name(mode: GenMode, field_name: Seq<char>) -> Seq<char> {
    if mode.spec_prefix().len() == 0 && mode.spec_suffix().len() == 0 {
        field_name
    } else {
        mode.spec_prefix() + spec_unraw(field_name) + mode.spec_suffix()
    }
}

/// Computes the generated method's name for one mode and field name.
pub fn method_name(mode: GenMode, field_name: &String) -> (r: String)
    ensures
        r@ == spec_method_name(mode, field_name@),
{
    proof {
        reveal_strlit("");
        reveal_strlit("set_");
        reveal_strlit("with_");
        reveal_strlit("_mut");
    }
    match mode {
        GenMode::GetRef | GenMode::GetCopy => field_name.clone(),
        _ => {
            let mut r = String::from_str(mode.prefix());
            let un = unraw(field_name.as_str());
            r.append(un.as_str());
            r.append(mode.suffix());
            proof {
                assert(r@ =~= spec_method_name(mode, field_name@));
            }
            r
        },
    }
}

/// The fold behind [`spec_resolve`]: a type-wide default is appended iff
/// its mode is not skipped, no directive of that mode is already present,
/// and it is not a read accessor suppressed by an explicit one.
pub open spec fn spec_merge(
    global: Seq<GenParams>,
    i: int,
    acc: Seq<GenParams>,
    skip: SkipSet,
    had_rc: bool,
) -> Seq<GenParams>
    decreases global.len() - i,
{
    if i < 0 || i >= global.len() {
        acc
    } else {
        let g = global[i];
        if !skip.spec_contains(g.mode) && !spec_has_mode(acc, g.mode) && !(had_rc
            && spec_is_ref_copy(g.mode)) {
            spec_merge(global, i + 1, acc.push(g), skip, had_rc)
        } else {
            spec_merge(global, i + 1, acc, skip, had_rc)
        }
    }
}

/// A field's final directive list: its explicit directives followed by
/// the type-wide defaults that survive skip suppression, per-mode
/// precedence, and ref/copy exclusivity.
pub open spec fn spec_resolve(
    explicit: Seq<GenParams>,
    skip: SkipSet,
    global: Seq<GenParams>,
) -> Seq<GenParams> {
    spec_merge(
        global,
        0,
        explicit,
        skip,
        spec_has_mode(explicit, GenMode::GetRef) || spec_has_mode(explicit, GenMode::GetCopy),
    )
}

/// Merges the type-wide defaults into a field's explicit directive list.
pub fn resolve_directives(
    explicit: &Vec<GenParams>,
    skip: &SkipSet,
    global: &Vec<GenParams>,
) -> (r: Vec<GenParams>)
    ensures
        r@ == spec_resolve(explicit@, *skip, global@),
{
    let mut out: Vec<GenParams> = Vec::new();
    let mut i: usize = 0;
    while i < explicit.len()
        invariant
            i <= explicit.len(),
            out@ == explicit@.take(i as int),
        decreases explicit.len() - i,
    {
        out.push(explicit[i]);
        proof {
            assert(explicit@.take(i + 1 as int) =~= explicit@.take(i as int).push(explicit@[
                i as int
            ]));
        }
        i += 1;
    }
    proof {
        assert(explicit@.take(explicit@.len() as int) =~= explicit@);
    }
    let had_rc = has_mode(explicit, GenMode::GetRef) || has_mode(explicit, GenMode::GetCopy);
    let mut j: usize = 0;
    while j < global.len()
        invariant
            j <= global.len(),
            spec_resolve(explicit@, *skip, global@) == spec_merge(
                global@,
                j as int,
                out@,
                *skip,
                had_rc,
            ),
        decreases global.len() - j,
    {
        let g = global[j];
        if !skip.contains(g.mode) && !has_mode(&out, g.mode) && !(had_rc && (g.mode
            == GenMode::GetRef || g.mode == GenMode::GetCopy)) {
            out.push(g);
        }
        j += 1;
    }
    out
}

/// Builds the descriptor of the method one resolved directive generates
/// for a field.
pub fn method_descriptor(field: &FieldDef, params: GenParams) -> (d: MethodDescriptor)
    ensures
        d.name@ == spec_method_name(params.mode, field.name@),
        d.mode == params.mode,
        d.vis == spec_directive_vis(params, field.vis),
        d.is_const == spec_directive_const(params),
        d.doc@ == field.doc@,
        d.field_name@ == field.name@,
        d.ty@ == field.ty@,
{
    let vis = match params.vis {
        Some(v) => v,
        None => field.vis,
    };
    let is_const = match params.is_const {
        Some(c) => c,
        None => false,
    };
    MethodDescriptor {
        name: method_name(params.mode, &field.name),
        mode: params.mode,
        vis,
        is_const,
        doc: clone_doc(&field.doc),
        field_name: field.name.clone(),
        ty: field.ty.clone(),
    }
}

/// Copies a field's documentation lines.
fn clone_doc(doc: &Vec<String>) -> (r: Vec<String>)
    ensures
        r@ == doc@,
{
    let mut r: Vec<String> = Vec::new();
    let mut i: usize = 0;
    while i < doc.len()
        invariant
            i <= doc.len(),
            r@ == doc@.take(i as int),
        decreases doc.len() - i,
    {
        r.push(doc[i].clone());
        proof {
            assert(doc@.take(i + 1 as int) =~= doc@.take(i as int).push(doc@[i as int]));
        }
        i += 1;
    }
    proof {
        assert(doc@.take(doc@.len() as int) =~= doc@);
    }
    r
}

/// The rendering of a visibility level, with its trailing space.
pub open spec fn spec_vis_text(v: Vis) -> Seq<char> {
    match v {
        Vis::Public => "pub "@,
        Vis::RestrictedToDefiningUnit => "pub(crate) "@,
        Vis::RestrictedToParent => "pub(self) "@,
        Vis::Inherited => ""@,
    }
}

/// Renders a visibility level, with its trailing space.
pub fn vis_text(v: Vis) -> (r: &'static str)
    ensures
        r@ == spec_vis_text(v),
{
    match v {
        Vis::Public => "pub ",
        Vis::RestrictedToDefiningUnit => "pub(crate) ",
        Vis::RestrictedToParent => "pub(self) ",
        Vis::Inherited => "",
    }
}

/// The fold behind the documentation part of a rendered method: one doc
/// comment line per documentation line, in order.
pub open spec fn spec_doc_fold(doc: Seq<String>, i: int, acc: Seq<char>) -> Seq<char>
    decreases doc.len() - i,
{
    if i < 0 || i >= doc.len() {
        acc
    } else {
        spec_doc_fold(doc, i + 1, acc + "///"@ + doc[i]@ + "\n"@)
    }
}

/// The signature and body of a method of the given mode, over the
/// method name, the field's type and the field's name.
pub open spec fn spec_sig_body(
    mode: GenMode,
    name: Seq<char>,
    ty: Seq<char>,
    field_name: Seq<char>,
) -> Seq<char> {
    match mode {
        GenMode::GetRef => "fn "@ + name + "(&self) -> &"@ + ty + " {\n    &self."@ + field_name
            + "\n}\n"@,
        GenMode::GetCopy => "fn "@ + name + "(&self) -> "@ + ty + " {\n    self."@ + field_name
            + "\n}\n"@,
        GenMode::GetMut => "fn "@ + name + "(&mut self) -> &mut "@ + ty + " {\n    &mut self."@
            + field_name + "\n}\n"@,
        GenMode::Setter => "fn "@ + name + "(&mut self, val: "@ + ty
            + ") -> &mut Self {\n    self."@ + field_name + " = val;\n    self\n}\n"@,
        GenMode::SetWith => "fn "@ + name + "(mut self, val: "@ + ty + ") -> Self {\n    self."@
            + field_name + " = val;\n    self\n}\n"@,
    }
}

/// The full rendering of one method: documentation lines, the inlining
/// hint, visibility, constness, then signature and body.
pub open spec fn spec_render_method(
    mode: GenMode,
    vis: Vis,
    is_const: bool,
    name: Seq<char>,
    ty: Seq<char>,
    doc: Seq<String>,
    field_name: Seq<char>,
) -> Seq<char> {
    spec_doc_fold(doc, 0, Seq::empty()) + "#[inline(always)]\n"@ + spec_vis_text(vis) + (
    if is_const {
        "const "@
    } else {
        Seq::<char>::empty()
    }) + spec_sig_body(mode, name, ty, field_name)
}

/// Renders one method descriptor into its method definition text.
pub fn render_method(d: &MethodDescriptor) -> (r: String)
    ensures
        r@ == spec_render_method(d.mode, d.vis, d.is_const, d.name@, d.ty@, d.doc@, d.field_name@),
{
    let mut out = String::new();
    let mut i: usize = 0;
    while i < d.doc.len()
        invariant
            i <= d.doc.len(),
            spec_doc_fold(d.doc@, 0, Seq::empty()) == spec_doc_fold(d.doc@, i as int, out@),
        decreases d.doc.len() - i,
    {
        out.append("///");
        out.append(d.doc[i].as_str());
        out.append("\n");
        i += 1;
    }
    out.append("#[inline(always)]\n");
    out.append(vis_text(d.vis));
    if d.is_const {
        out.append("const ");
    }
    match d.mode {
        GenMode::GetRef => {
            out.append("fn ");
            out.append(d.name.as_str());
            out.append("(&self) -> &");
            out.append(d.ty.as_str());
            out.append(" {\n    &self.");
            out.append(d.field_name.as_str());
            out.append("\n}\n");
        },
        GenMode::GetCopy => {
            out.append("fn ");
            out.append(d.name.as_str());
            out.append("(&self) -> ");
            out.append(d.ty.as_str());
            out.append(" {\n    self.");
            out.append(d.field_name.as_str());
            out.append("\n}\n");
        },
        GenMode::GetMut => {
            out.append("fn ");
            out.append(d.name.as_str());
            out.append("(&mut self) -> &mut ");
            out.append(d.ty.as_str());
            out.append(" {\n    &mut self.");
            out.append(d.field_name.as_str());
            out.append("\n}\n");
        },
        GenMode::Setter => {
            out.append("fn ");
            out.append(d.name.as_str());
            out.append("(&mut self, val: ");
            out.append(d.ty.as_str());
            out.append(") -> &mut Self {\n    self.");
            out.append(d.field_name.as_str());
            out.append(" = val;\n    self\n}\n");
        },
        GenMode::SetWith => {
            out.append("fn ");
            out.append(d.name.as_str());
            out.append("(mut self, val: ");
            out.append(d.ty.as_str());
            out.append(") -> Self {\n    self.");
            out.append(d.field_name.as_str());
            out.append(" = val;\n    self\n}\n");
        },
    }
    proof {
        assert(out@ =~= spec_render_method(
            d.mode,
            d.vis,
            d.is_const,
            d.name@,
            d.ty@,
            d.doc@,
            d.field_name@,
        ));
    }
    out
}

/// The rendering of the method one resolved directive generates for a
/// field.
pub open spec fn spec_gen_method(field: FieldDef, p: GenParams) -> Seq<char> {
    spec_render_method(
        p.mode,
        spec_directive_vis(p, field.vis),
        spec_directive_const(p),
        spec_method_name(p.mode, field.name@),
        field.ty@,
        field.doc@,
        field.name@,
    )
}

/// Renders the method one resolved directive generates for a field.
pub fn gen_method(field: &FieldDef, params: GenParams) -> (r: String)
    ensures
        r@ == spec_gen_method(*field, params),
{
    let d = method_descriptor(field, params);
    render_method(&d)
}

/// The fold behind [`spec_implement`]: the renderings of a field's
/// resolved directives, concatenated in order.
pub open spec fn spec_render_all(
    field: FieldDef,
    ds: Seq<GenParams>,
    i: int,
    acc: Seq<char>,
) -> Seq<char>
    decreases ds.len() - i,
{
    if i < 0 || i >= ds.len() {
        acc
    } else {
        spec_render_all(field, ds, i + 1, acc + spec_gen_method(field, ds[i]))
    }
}

/// Everything generated for one field: nothing without an annotation
/// block; else one rendered method per resolved directive, in order.
pub open spec fn spec_implement(field: FieldDef, global: Seq<GenParams>) -> Result<
    Seq<char>,
    GsError,
> {
    match field.attr {
        None => Ok(Seq::empty()),
        Some(items) => match spec_parse_attr(items@) {
            Err(e) => Err(e),
            Ok((ps, sk)) => Ok(
                spec_render_all(field, spec_resolve(ps, sk, global), 0, Seq::empty()),
            ),
        },
    }
}

/// Generates all methods for one field of the annotated type, under the
/// given type-wide defaults. A field without an annotation block gets no
/// methods at all.
pub fn implement(field: &FieldDef, global_params: &Vec<GenParams>) -> (r: Result<String, GsError>)
    ensures
        match (r, spec_implement(*field, global_params@)) {
            (Ok(s), Ok(ss)) => s@ == ss,
            (Err(e), Err(se)) => e == se,
            _ => false,
        },
{
    match field.attr.as_ref() {
        None => Ok(String::new()),
        Some(items) => {
            match parse_attr(items) {
                Err(e) => Err(e),
                Ok((ps, sk)) => {
                    let resolved = resolve_directives(&ps, &sk, global_params);
                    let mut out = String::new();
                    let mut i: usize = 0;
                    while i < resolved.len()
                        invariant
                            i <= resolved.len(),
                            spec_render_all(*field, resolved@, 0, Seq::empty()) == spec_render_all(
                                *field,
                                resolved@,
                                i as int,
                                out@,
                            ),
                        decreases resolved.len() - i,
                    {
                        let m = gen_method(field, resolved[i]);
                        out.append(m.as_str());
                        i += 1;
                    }
                    Ok(out)
                },
            }
        },
    }
}

} // verus!
