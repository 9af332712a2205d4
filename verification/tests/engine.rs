use getset2::ast::{AnnArg, AnnItem, FieldDef, GsError, TypeBody, TypeDef, Vis};
use getset2::generate::{gen_method, implement, method_descriptor, resolve_directives, GenMode};
use getset2::{
    new_gen_params, new_global_gen_params_list, parse_attr, parse_skip_attr, parse_vis_meta,
    produce,
};

fn item(label: &str) -> AnnItem {
    AnnItem { label: label.to_string(), args: None }
}

fn item_args(label: &str, args: Vec<AnnArg>) -> AnnItem {
    AnnItem { label: label.to_string(), args: Some(args) }
}

fn arg(label: &str) -> AnnArg {
    AnnArg { label: label.to_string(), value: None }
}

fn argv(label: &str, value: &str) -> AnnArg {
    AnnArg { label: label.to_string(), value: Some(value.to_string()) }
}

fn field(name: &str, ty: &str, vis: Vis, attr: Option<Vec<AnnItem>>) -> FieldDef {
    FieldDef { name: name.to_string(), ty: ty.to_string(), vis, doc: vec![], attr }
}

fn plain_type(fields: Vec<FieldDef>, attr: Option<Vec<AnnItem>>) -> TypeDef {
    TypeDef {
        name: "Foo".to_string(),
        generics_impl: String::new(),
        generics_ty: String::new(),
        where_clause: String::new(),
        attr,
        body: TypeBody::Record(fields),
    }
}

#[test]
fn affixes_match_the_mode_table() {
    assert_eq!(GenMode::GetRef.prefix(), "");
    assert_eq!(GenMode::GetRef.suffix(), "");
    assert_eq!(GenMode::GetCopy.prefix(), "");
    assert_eq!(GenMode::GetCopy.suffix(), "");
    assert_eq!(GenMode::GetMut.prefix(), "");
    assert_eq!(GenMode::GetMut.suffix(), "_mut");
    assert_eq!(GenMode::Setter.prefix(), "set_");
    assert_eq!(GenMode::Setter.suffix(), "");
    assert_eq!(GenMode::SetWith.prefix(), "with_");
    assert_eq!(GenMode::SetWith.suffix(), "");
}

#[test]
fn list_holds_all_five_modes_in_order() {
    let l = GenMode::list();
    assert_eq!(
        l,
        [GenMode::GetRef, GenMode::GetCopy, GenMode::GetMut, GenMode::Setter, GenMode::SetWith]
    );
}

#[test]
fn unannotated_field_gets_no_methods() {
    let f = field("x", "i32", Vis::Inherited, None);
    let r = implement(&f, &vec![]).unwrap();
    assert_eq!(r, "");
}

#[test]
fn unannotated_field_gets_no_methods_even_with_defaults() {
    let g = new_global_gen_params_list(&Some(vec![item("get_copy")])).unwrap();
    let f = field("x", "i32", Vis::Inherited, None);
    let r = implement(&f, &g).unwrap();
    assert_eq!(r, "");
}

#[test]
fn field_get_ref_and_set_generate_two_methods() {
    let f = field("x", "i32", Vis::Inherited, Some(vec![item("get_ref"), item("set")]));
    let r = implement(&f, &vec![]).unwrap();
    let expected = "#[inline(always)]\nfn x(&self) -> &i32 {\n    &self.x\n}\n\
#[inline(always)]\nfn set_x(&mut self, val: i32) -> &mut Self {\n    self.x = val;\n    self\n}\n";
    assert_eq!(r, expected);
}

#[test]
fn type_level_copy_default_applies_to_field_with_empty_block() {
    let g = new_global_gen_params_list(&Some(vec![item("get_copy")])).unwrap();
    let f = field("x", "i32", Vis::RestrictedToDefiningUnit, Some(vec![]));
    let r = implement(&f, &g).unwrap();
    assert_eq!(r, "#[inline(always)]\npub(crate) fn x(&self) -> i32 {\n    self.x\n}\n");
}

#[test]
fn first_seen_read_accessor_wins_during_parsing() {
    let (ps, _) = parse_attr(&vec![item("get_ref"), item("get_copy")]).unwrap();
    assert_eq!(ps.len(), 1);
    assert_eq!(ps[0].mode, GenMode::GetRef);
}

#[test]
fn copy_first_suppresses_later_ref_during_parsing() {
    let (ps, _) = parse_attr(&vec![item("get_copy"), item("get_ref")]).unwrap();
    assert_eq!(ps.len(), 1);
    assert_eq!(ps[0].mode, GenMode::GetCopy);
}

#[test]
fn type_level_ref_then_copy_keeps_the_first_seen() {
    let g = new_global_gen_params_list(&Some(vec![item("get_ref"), item("get_copy")])).unwrap();
    assert_eq!(g.len(), 1);
    assert_eq!(g[0].mode, GenMode::GetRef);
}

#[test]
fn type_level_copy_then_ref_keeps_only_copy() {
    let g = new_global_gen_params_list(&Some(vec![item("get_copy"), item("get_ref")])).unwrap();
    assert_eq!(g.len(), 1);
    assert_eq!(g[0].mode, GenMode::GetCopy);
}

#[test]
fn explicit_read_accessor_suppresses_inherited_one() {
    let g = new_global_gen_params_list(&Some(vec![item("get_copy")])).unwrap();
    let f = field("x", "i32", Vis::Inherited, Some(vec![item("get_ref")]));
    let r = implement(&f, &g).unwrap();
    assert_eq!(r, "#[inline(always)]\nfn x(&self) -> &i32 {\n    &self.x\n}\n");
}

#[test]
fn skipped_mode_is_never_generated_despite_defaults() {
    let g = new_global_gen_params_list(&Some(vec![item("set")])).unwrap();
    let f = field(
        "x",
        "i32",
        Vis::Inherited,
        Some(vec![item_args("skip", vec![arg("set")]), item("get_mut")]),
    );
    let r = implement(&f, &g).unwrap();
    assert_eq!(r, "#[inline(always)]\nfn x_mut(&mut self) -> &mut i32 {\n    &mut self.x\n}\n");
}

#[test]
fn bare_skip_suppresses_everything() {
    let g = new_global_gen_params_list(&Some(vec![item("get_ref"), item("set_with")])).unwrap();
    let f = field("x", "i32", Vis::Inherited, Some(vec![item("skip")]));
    let r = implement(&f, &g).unwrap();
    assert_eq!(r, "");
}

#[test]
fn skip_filters_explicit_directives_listed_before_it() {
    let (ps, sk) = parse_attr(&vec![item("set"), item_args("skip", vec![arg("set")])]).unwrap();
    assert_eq!(ps.len(), 0);
    assert!(sk.set);
    assert!(!sk.get_ref);
}

#[test]
fn skip_with_empty_parens_excludes_nothing() {
    let sk = parse_skip_attr(&Some(vec![])).unwrap();
    assert!(sk.is_empty());
}

#[test]
fn bare_skip_excludes_all_five_modes() {
    let sk = parse_skip_attr(&None).unwrap();
    assert!(sk.get_ref && sk.get_copy && sk.get_mut && sk.set && sk.set_with);
}

#[test]
fn explicit_directive_beats_default_of_same_mode() {
    let g = new_global_gen_params_list(&Some(vec![item("set")])).unwrap();
    let f = field("x", "i32", Vis::Inherited, Some(vec![item_args("set", vec![arg("pub")])]));
    let r = implement(&f, &g).unwrap();
    assert_eq!(
        r,
        "#[inline(always)]\npub fn set_x(&mut self, val: i32) -> &mut Self {\n    self.x = val;\n    self\n}\n"
    );
}

#[test]
fn unset_visibility_inherits_the_field_visibility() {
    let f = field("x", "u8", Vis::RestrictedToParent, Some(vec![item("get_mut")]));
    let r = implement(&f, &vec![]).unwrap();
    assert_eq!(
        r,
        "#[inline(always)]\npub(self) fn x_mut(&mut self) -> &mut u8 {\n    &mut self.x\n}\n"
    );
}

#[test]
fn pub_super_collapses_to_the_defining_unit_level() {
    let p = new_gen_params(GenMode::Setter, &Some(vec![argv("pub", "super")])).unwrap();
    assert_eq!(p.vis, Some(Vis::RestrictedToDefiningUnit));
    let p2 = new_gen_params(GenMode::Setter, &Some(vec![argv("pub", "crate")])).unwrap();
    assert_eq!(p2.vis, Some(Vis::RestrictedToDefiningUnit));
}

#[test]
fn pub_self_maps_to_the_parent_level() {
    let p = new_gen_params(GenMode::Setter, &Some(vec![argv("pub", "self")])).unwrap();
    assert_eq!(p.vis, Some(Vis::RestrictedToParent));
}

#[test]
fn later_visibility_argument_wins() {
    let p = new_gen_params(GenMode::Setter, &Some(vec![arg("pub"), argv("pub", "self")])).unwrap();
    assert_eq!(p.vis, Some(Vis::RestrictedToParent));
}

#[test]
fn unknown_nested_argument_is_ignored() {
    let p = new_gen_params(GenMode::GetRef, &Some(vec![arg("whatever")])).unwrap();
    assert_eq!(p.vis, None);
    assert_eq!(p.is_const, None);
}

#[test]
fn const_argument_marks_the_method_const() {
    let f = field(
        "x",
        "i32",
        Vis::Inherited,
        Some(vec![item_args("get_copy", vec![arg("pub"), arg("const")])]),
    );
    let r = implement(&f, &vec![]).unwrap();
    assert_eq!(r, "#[inline(always)]\npub const fn x(&self) -> i32 {\n    self.x\n}\n");
}

#[test]
fn parse_vis_meta_reads_const_and_pub() {
    assert_eq!(parse_vis_meta(&arg("const")).unwrap(), (None, Some(true)));
    assert_eq!(parse_vis_meta(&arg("pub")).unwrap(), (Some(Vis::Public), None));
    assert_eq!(parse_vis_meta(&arg("other")).unwrap(), (None, None));
}

#[test]
fn invalid_visibility_value_is_fatal() {
    let r = new_gen_params(GenMode::GetRef, &Some(vec![argv("pub", "world")]));
    assert_eq!(r.unwrap_err(), GsError::InvalidVisibility);
}

#[test]
fn unknown_label_is_fatal() {
    let r = parse_attr(&vec![item("fetch")]);
    assert_eq!(r.unwrap_err(), GsError::InvalidAttribute);
}

#[test]
fn unknown_skip_target_is_fatal() {
    let r = parse_attr(&vec![item_args("skip", vec![arg("fetch")])]);
    assert_eq!(r.unwrap_err(), GsError::InvalidSkipIdentifier);
}

#[test]
fn type_level_skip_is_fatal() {
    let r = new_global_gen_params_list(&Some(vec![item("skip")]));
    assert_eq!(r.unwrap_err(), GsError::TypeLevelSkip);
}

#[test]
fn non_record_shape_is_fatal() {
    let t = TypeDef {
        name: "Foo".to_string(),
        generics_impl: String::new(),
        generics_ty: String::new(),
        where_clause: String::new(),
        attr: None,
        body: TypeBody::Other,
    };
    assert_eq!(produce(&t).unwrap_err(), GsError::NotAStruct);
}

#[test]
fn field_error_aborts_the_whole_type() {
    let t = plain_type(
        vec![
            field("a", "i32", Vis::Inherited, Some(vec![item("get_ref")])),
            field("b", "i32", Vis::Inherited, Some(vec![item("fetch")])),
        ],
        None,
    );
    assert_eq!(produce(&t).unwrap_err(), GsError::InvalidAttribute);
}

#[test]
fn escaped_field_name_is_unescaped_in_affixed_names() {
    let f = field("r#type", "u8", Vis::Inherited, Some(vec![item("set_with")]));
    let r = implement(&f, &vec![]).unwrap();
    assert_eq!(
        r,
        "#[inline(always)]\nfn with_type(mut self, val: u8) -> Self {\n    self.r#type = val;\n    self\n}\n"
    );
}

#[test]
fn escaped_field_name_stays_verbatim_without_affixes() {
    let f = field("r#type", "u8", Vis::Inherited, Some(vec![item("get_ref")]));
    let r = implement(&f, &vec![]).unwrap();
    assert_eq!(r, "#[inline(always)]\nfn r#type(&self) -> &u8 {\n    &self.r#type\n}\n");
}

#[test]
fn doc_lines_are_attached_to_every_generated_method() {
    let mut f = field("x", "i32", Vis::Inherited, Some(vec![item("get_ref"), item("set")]));
    f.doc = vec![" One.".to_string(), " Two.".to_string()];
    let r = implement(&f, &vec![]).unwrap();
    let expected = "/// One.\n/// Two.\n#[inline(always)]\nfn x(&self) -> &i32 {\n    &self.x\n}\n\
/// One.\n/// Two.\n#[inline(always)]\nfn set_x(&mut self, val: i32) -> &mut Self {\n    self.x = val;\n    self\n}\n";
    assert_eq!(r, expected);
}

#[test]
fn resolve_appends_missing_defaults_in_order() {
    let (ps, sk) = parse_attr(&vec![item("set")]).unwrap();
    let g = new_global_gen_params_list(&Some(vec![item("set"), item("get_mut")])).unwrap();
    let resolved = resolve_directives(&ps, &sk, &g);
    let modes: Vec<GenMode> = resolved.iter().map(|p| p.mode).collect();
    assert_eq!(modes, vec![GenMode::Setter, GenMode::GetMut]);
}

#[test]
fn descriptor_carries_resolved_visibility_and_name() {
    let f = field("count", "usize", Vis::Public, Some(vec![]));
    let p = new_gen_params(GenMode::GetMut, &None).unwrap();
    let d = method_descriptor(&f, p);
    assert_eq!(d.name, "count_mut");
    assert_eq!(d.vis, Vis::Public);
    assert_eq!(d.mode, GenMode::GetMut);
    assert!(!d.is_const);
    assert_eq!(d.field_name, "count");
    assert_eq!(d.ty, "usize");
}

#[test]
fn gen_method_renders_one_method() {
    let f = field("x", "i32", Vis::Inherited, None);
    let p = new_gen_params(GenMode::GetCopy, &None).unwrap();
    let r = gen_method(&f, p);
    assert_eq!(r, "#[inline(always)]\nfn x(&self) -> i32 {\n    self.x\n}\n");
}

#[test]
fn produce_wraps_methods_in_one_impl_block() {
    let t = plain_type(
        vec![field("x", "i32", Vis::Inherited, Some(vec![item("get_ref")]))],
        None,
    );
    let r = produce(&t).unwrap();
    assert_eq!(
        r,
        "impl Foo {\n#[inline(always)]\nfn x(&self) -> &i32 {\n    &self.x\n}\n}\n"
    );
}

#[test]
fn produce_keeps_generics_and_where_clause() {
    let t = TypeDef {
        name: "Foo".to_string(),
        generics_impl: "<T: Copy>".to_string(),
        generics_ty: "<T>".to_string(),
        where_clause: "where T: Default".to_string(),
        attr: None,
        body: TypeBody::Record(vec![field("x", "T", Vis::Inherited, Some(vec![item("set")]))]),
    };
    let r = produce(&t).unwrap();
    assert_eq!(
        r,
        "impl <T: Copy> Foo<T> where T: Default {\n#[inline(always)]\nfn set_x(&mut self, val: T) -> &mut Self {\n    self.x = val;\n    self\n}\n}\n"
    );
}

#[test]
fn rerunning_the_engine_yields_identical_output() {
    let build = || {
        plain_type(
            vec![
                field(
                    "x",
                    "i32",
                    Vis::Inherited,
                    Some(vec![item_args("get_copy", vec![arg("const")]), item("set")]),
                ),
                field("y", "String", Vis::Public, Some(vec![])),
            ],
            Some(vec![item("get_ref")]),
        )
    };
    let a = produce(&build()).unwrap();
    let b = produce(&build()).unwrap();
    assert_eq!(a, b);
}

#[test]
fn resolved_list_never_holds_both_read_accessors() {
    let cases: Vec<(Vec<AnnItem>, Vec<AnnItem>)> = vec![
        (vec![item("get_ref")], vec![item("get_copy")]),
        (vec![item("get_copy")], vec![item("get_ref")]),
        (vec![item("get_ref"), item("get_copy")], vec![item("get_copy")]),
        (vec![], vec![item("get_copy"), item("get_ref")]),
    ];
    for (field_items, type_items) in cases {
        let (ps, sk) = parse_attr(&field_items).unwrap();
        let g = new_global_gen_params_list(&Some(type_items)).unwrap();
        let resolved = resolve_directives(&ps, &sk, &g);
        let refs = resolved.iter().filter(|p| p.mode == GenMode::GetRef).count();
        let copies = resolved.iter().filter(|p| p.mode == GenMode::GetCopy).count();
        assert!(refs == 0 || copies == 0);
    }
}
