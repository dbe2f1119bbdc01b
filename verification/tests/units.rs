//! The small parts on their own: markers, single settings, inheritance of
//! setter options, attribute forwarding.

use derive_builder::error::ConfigError;
use derive_builder::options::field_options::{prefixed_name, SetterOptions};
use derive_builder::lexical::{guard, has_wide_byte};
use derive_builder::options::meta::{
    check_path, is_key, path_reads, read_block, read_bool, read_default, read_flag, read_idents,
    read_list, read_path, read_pattern, read_string,
};
use derive_builder::options::struct_options::{
    no_std_to_bindings, BuildFnOptions, SetterOptions as StructSetterOptions,
};
use derive_builder::options::{
    forward_attrs, resolve_visibility, should_forward_attr, DefaultExpression, FieldItem, LegacyVis,
    Override, StructOptions,
};
use derive_builder::syntax::{
    clone_attrs, clone_strings, Attribute, Generics, Lit, MetaItem, NestedMetaItem, Visibility,
};
use derive_builder::synthesis::{block_reads, Bindings, Block, BuilderPattern};
use derive_builder::{build_method_doc_comment, builder_doc_comment};
use std::str::FromStr;

fn word(name: &str) -> MetaItem {
    MetaItem::Word(name.to_string())
}

fn value(name: &str, lit: Lit) -> MetaItem {
    MetaItem::NameValue(name.to_string(), lit)
}

fn string(name: &str, text: &str) -> MetaItem {
    value(name, Lit::Str(text.to_string()))
}

fn list(name: &str, items: Vec<MetaItem>) -> MetaItem {
    MetaItem::List(name.to_string(), items.into_iter().map(NestedMetaItem::MetaItem).collect())
}

fn attr(value: MetaItem) -> Attribute {
    Attribute { value, is_sugared_doc: false }
}

#[test]
fn legacy_markers_are_reconciled() {
    let both = FieldItem { public: Some(()), private: Some(()) };
    let public = FieldItem { public: Some(()), private: None };
    let private = FieldItem { public: None, private: Some(()) };
    let neither = FieldItem::default();

    assert!(both.declared_public() && both.declared_private());
    assert!(public.declared_public() && !public.declared_private());
    assert!(!private.declared_public() && private.declared_private());
    assert!(!neither.declared_public() && !neither.declared_private());

    assert_eq!(both.to_visibility(), Err(ConfigError::ConflictingVisibility));
    assert_eq!(public.to_visibility(), Ok(Some(Visibility::Public)));
    assert_eq!(private.to_visibility(), Ok(Some(Visibility::Inherited)));
    assert_eq!(neither.to_visibility(), Ok(None));

    assert_eq!(both.take_vis(), Err(ConfigError::ConflictingVisibility));
    assert_eq!(public.take_vis(), Ok(Some(Visibility::Public)));
    assert_eq!(private.take_vis(), Ok(Some(Visibility::Inherited)));
    assert_eq!(neither.take_vis(), Ok(None));

    let setter = StructSetterOptions { public: Some(()), private: Some(()), ..Default::default() };
    assert_eq!(setter.to_visibility(), Err(ConfigError::ConflictingVisibility));
    let setter = StructSetterOptions { private: Some(()), ..Default::default() };
    assert_eq!(setter.to_visibility(), Ok(Some(Visibility::Inherited)));
}

#[test]
fn visibility_goes_by_marker_then_override_then_declaration() {
    let declared = Visibility::Crate;
    let over = Some(Visibility::Restricted("super".to_string()));
    assert_eq!(resolve_visibility(Some(Visibility::Public), &over, &declared), Visibility::Public);
    assert_eq!(
        resolve_visibility(None, &over, &declared),
        Visibility::Restricted("super".to_string())
    );
    assert_eq!(resolve_visibility(None, &None, &declared), Visibility::Crate);
    assert_eq!(resolve_visibility(Some(Visibility::Inherited), &None, &declared), Visibility::Inherited);
}

#[test]
fn field_item_is_read_from_its_list() {
    assert_eq!(FieldItem::read_visibility(&list("field", vec![word("public")])), Ok(Some(Visibility::Public)));
    assert_eq!(FieldItem::read_visibility(&list("field", vec![word("private")])), Ok(Some(Visibility::Inherited)));
    assert_eq!(FieldItem::read_visibility(&list("field", vec![])), Ok(None));
    assert_eq!(
        FieldItem::read_visibility(&list("field", vec![word("public"), word("public")])),
        Err(ConfigError::DuplicateField("public".to_string()))
    );
    assert_eq!(
        FieldItem::read_visibility(&list("field", vec![word("crate")])),
        Err(ConfigError::UnknownField("crate".to_string()))
    );
    assert_eq!(
        FieldItem::read_visibility(&word("field")),
        Err(ConfigError::UnexpectedFormat("field".to_string()))
    );
    assert_eq!(
        FieldItem::read_visibility(&string("field", "public")),
        Err(ConfigError::UnexpectedType("field".to_string()))
    );
}

#[test]
fn single_settings_take_their_forms() {
    assert!(is_key(&"skip".to_string(), "skip"));
    assert!(!is_key(&"skip".to_string(), "skipped"));

    assert_eq!(read_flag(&word("public")), Ok(()));
    assert_eq!(read_flag(&list("public", vec![])), Err(ConfigError::UnexpectedFormat("public".to_string())));
    assert_eq!(
        read_flag(&value("public", Lit::Bool(true))),
        Err(ConfigError::UnexpectedType("public".to_string()))
    );

    assert_eq!(read_bool(&word("skip")), Ok(true));
    assert_eq!(read_bool(&value("skip", Lit::Bool(false))), Ok(false));
    assert_eq!(read_bool(&string("skip", "true")), Ok(true));
    assert_eq!(read_bool(&string("skip", "false")), Ok(false));
    assert_eq!(read_bool(&string("skip", "True")), Err(ConfigError::UnknownValue("True".to_string())));
    assert_eq!(
        read_bool(&value("skip", Lit::Other("1".to_string()))),
        Err(ConfigError::UnexpectedType("skip".to_string()))
    );
    assert_eq!(read_bool(&list("skip", vec![])), Err(ConfigError::UnexpectedFormat("skip".to_string())));

    assert_eq!(read_string(&string("name", "x")), Ok("x".to_string()));
    assert_eq!(read_string(&word("name")), Err(ConfigError::UnexpectedFormat("name".to_string())));
    assert_eq!(read_string(&list("name", vec![])), Err(ConfigError::UnexpectedFormat("name".to_string())));
    assert_eq!(
        read_string(&value("name", Lit::Bool(true))),
        Err(ConfigError::UnexpectedType("name".to_string()))
    );

    let block = list("setter", vec![word("into")]);
    assert_eq!(read_list(&block).map(|items| items.len()), Ok(1));
    assert_eq!(read_list(&word("setter")), Err(ConfigError::UnexpectedFormat("setter".to_string())));
    assert_eq!(read_list(&string("setter", "x")), Err(ConfigError::UnexpectedType("setter".to_string())));

    assert_eq!(read_pattern(&string("pattern", "owned")), Ok(BuilderPattern::Owned));
    assert_eq!(read_pattern(&string("pattern", "mutable")), Ok(BuilderPattern::Mutable));
    assert_eq!(read_pattern(&string("pattern", "immutable")), Ok(BuilderPattern::Immutable));
    assert_eq!(read_pattern(&string("pattern", "Owned")), Err(ConfigError::UnknownValue("Owned".to_string())));
    assert_eq!(read_pattern(&word("pattern")), Err(ConfigError::UnexpectedFormat("pattern".to_string())));

    assert_eq!(read_default(&word("default")), Ok(DefaultExpression::Trait));
    assert_eq!(read_default(&string("default", "1 + 1")), Ok(DefaultExpression::Explicit("1 + 1".to_string())));
    assert_eq!(read_default(&string("default", "")), Ok(DefaultExpression::Explicit(String::new())));
    assert_eq!(read_default(&list("default", vec![])), Err(ConfigError::UnexpectedFormat("default".to_string())));
    assert_eq!(
        read_default(&value("default", Lit::Bool(true))),
        Err(ConfigError::UnexpectedType("default".to_string()))
    );

    assert_eq!(
        read_idents(&list("derive", vec![word("Debug"), word("Clone")])),
        Ok(vec!["Debug".to_string(), "Clone".to_string()])
    );
    assert_eq!(read_idents(&list("derive", vec![])), Ok(vec![]));
    assert_eq!(
        read_idents(&list("derive", vec![word("Debug"), list("Clone", vec![])])),
        Err(ConfigError::UnexpectedType("derive".to_string()))
    );
    assert_eq!(
        read_idents(&MetaItem::List(
            "derive".to_string(),
            vec![NestedMetaItem::Literal(Lit::Str("Debug".to_string()))]
        )),
        Err(ConfigError::UnexpectedType("derive".to_string()))
    );
    assert_eq!(read_idents(&word("derive")), Err(ConfigError::UnexpectedFormat("derive".to_string())));
}

#[test]
fn paths_are_checked_by_the_parser() {
    assert_eq!(read_path(&string("validate", "path::to::check")), Ok("path::to::check".to_string()));
    assert_eq!(read_path(&string("validate", "::std::mem::drop")), Ok("::std::mem::drop".to_string()));
    assert_eq!(read_path(&string("validate", "a b")), Err(ConfigError::UnknownValue("a b".to_string())));
    assert_eq!(read_path(&string("validate", "")), Err(ConfigError::UnknownValue(String::new())));
    assert_eq!(read_path(&word("validate")), Err(ConfigError::UnexpectedFormat("validate".to_string())));
    assert_eq!(check_path("x".to_string(), true), Ok("x".to_string()));
    assert_eq!(check_path("x".to_string(), false), Err(ConfigError::UnknownValue("x".to_string())));
}

#[test]
fn blocks_are_filled_key_by_key() {
    let items = vec![
        NestedMetaItem::MetaItem(word("skip")),
        NestedMetaItem::Literal(Lit::Bool(true)),
        NestedMetaItem::MetaItem(string("name", "make")),
    ];
    assert_eq!(
        read_block(BuildFnOptions::default(), &items),
        Ok(BuildFnOptions { skip: true, name: "make".to_string(), validate: None })
    );
    assert_eq!(BuildFnOptions::default(), BuildFnOptions { skip: false, name: "build".to_string(), validate: None });
    assert_eq!(
        BuildFnOptions::read(&list("build_fn", vec![])),
        Ok(BuildFnOptions::default())
    );
    assert_eq!(
        BuildFnOptions::read(&list("build_fn", vec![word("skip"), string("skip", "false")])),
        Err(ConfigError::DuplicateField("skip".to_string()))
    );
    assert_eq!(
        StructSetterOptions::read(&list("setter", vec![string("prefix", "with"), word("into"), word("private")])),
        Ok(StructSetterOptions {
            prefix: Some("with".to_string()),
            into: true,
            skip: false,
            private: Some(()),
            public: None,
        })
    );
    assert_eq!(
        StructSetterOptions::read(&list("setter", vec![string("name", "x")])),
        Err(ConfigError::UnknownField("name".to_string()))
    );
    let copy = StructSetterOptions { prefix: Some("p".to_string()), into: true, ..Default::default() };
    assert_eq!(copy.clone(), copy);
}

#[test]
fn presence_of_the_setter_block_enables_the_setter() {
    let unset = SetterOptions::default();
    assert_eq!(unset, SetterOptions { name: None, prefix: None, skip: None, into: None });
    assert_eq!(unset.presence_enables().skip, Some(false));
    let skipped = SetterOptions { skip: Some(true), ..Default::default() };
    assert_eq!(skipped.presence_enables().skip, Some(true));

    assert_eq!(
        SetterOptions::from_override(Override::Inherit),
        SetterOptions { skip: Some(false), ..Default::default() }
    );
    assert_eq!(
        SetterOptions::from_override(Override::Explicit(SetterOptions {
            into: Some(true),
            ..Default::default()
        })),
        SetterOptions { into: Some(true), skip: Some(false), ..Default::default() }
    );
    assert_eq!(
        SetterOptions::from_override(Override::Explicit(SetterOptions {
            skip: Some(true),
            ..Default::default()
        })),
        SetterOptions { skip: Some(true), ..Default::default() }
    );

    assert_eq!(SetterOptions::read(&word("setter")), Ok(SetterOptions { skip: Some(false), ..Default::default() }));
    assert_eq!(
        SetterOptions::read(&list("setter", vec![word("skip")])),
        Ok(SetterOptions { skip: Some(true), ..Default::default() })
    );
}

#[test]
fn setter_options_take_over_from_the_struct() {
    let field = "foo".to_string();
    assert_eq!(prefixed_name(&"with".to_string(), &field), "with_foo");

    let parent = StructSetterOptions { prefix: Some("set".to_string()), into: true, ..Default::default() };

    // An explicit name stays, whatever the prefixes.
    let mut s = SetterOptions {
        name: Some("bar".to_string()),
        prefix: Some("with".to_string()),
        ..Default::default()
    };
    s.with_defaults(Some(&parent), &field);
    assert_eq!(s.name, Some("bar".to_string()));
    assert_eq!(s.into, Some(true));

    // The field's own prefix goes before that of the struct.
    let mut s = SetterOptions { prefix: Some("with".to_string()), into: Some(false), ..Default::default() };
    s.with_defaults(Some(&parent), &field);
    assert_eq!(s.name, Some("with_foo".to_string()));
    assert_eq!(s.into, Some(false));

    // The struct's prefix is next.
    let mut s = SetterOptions::default();
    s.with_defaults(Some(&parent), &field);
    assert_eq!(s.name, Some("set_foo".to_string()));
    assert_eq!(s.skip, None);

    // Without a parent only the field's own prefix applies.
    let mut s = SetterOptions { prefix: Some("with".to_string()), ..Default::default() };
    s.with_defaults(None, &field);
    assert_eq!(s, SetterOptions { name: Some("with_foo".to_string()), prefix: Some("with".to_string()), skip: None, into: None });
    let mut s = SetterOptions::default();
    s.with_defaults(None, &field);
    assert_eq!(s, SetterOptions::default());

    // The struct's `skip` is not taken over.
    let parent = StructSetterOptions { skip: true, ..Default::default() };
    let mut s = SetterOptions::default();
    s.with_defaults(Some(&parent), &field);
    assert_eq!(s, SetterOptions { into: Some(false), ..Default::default() });
}

#[test]
fn struct_options_start_from_the_name() {
    let s = StructOptions::new("Foo".to_string());
    assert_eq!(s, StructOptions::from("Foo".to_string()));
    assert_eq!(s.ident, "Foo");
    assert_eq!(s.vis, Visibility::Inherited);
    assert_eq!(s.generics, Generics::new());
    assert_eq!(s.pattern, BuilderPattern::Mutable);
    assert_eq!(s.pattern, BuilderPattern::default());
    assert_eq!(s.bindings, Bindings::default());
    assert_eq!(s.build_fn, BuildFnOptions::default());
    assert_eq!(s.locate(), "on struct Foo");
    assert_eq!(s.builder_ident(), "FooBuilder");
    let named = StructOptions { name: Some("Maker".to_string()), ..StructOptions::new("Foo".to_string()) };
    assert_eq!(named.builder_ident(), "Maker");
    assert_eq!(named.as_builder().unwrap().ident, "Maker");

    assert_eq!(no_std_to_bindings(true), Bindings::NoStd);
    assert_eq!(no_std_to_bindings(false), Bindings::Std);
}

#[test]
fn build_switches_silence_the_notices() {
    let options = StructOptions {
        default: Some(DefaultExpression::Trait),
        deprecation_notes: vec!["earlier".to_string()],
        ..StructOptions::new("Foo".to_string())
    };
    let all = options.clone().finish_with(false, false);
    assert_eq!(all.deprecation_notes.len(), 3);
    assert_eq!(all.deprecation_notes[0], "earlier");
    assert!(all.deprecation_notes[1].starts_with("the meaning of `#[builder(default)]`"));
    assert!(all.deprecation_notes[1].contains("on struct Foo"));
    assert!(all.deprecation_notes[2].starts_with("Builder fields will be private by default"));
    assert!(all.deprecation_notes[2].contains("on struct Foo"));
    assert_eq!(all, options.clone().finish());

    let one = options.clone().finish_with(true, false);
    assert_eq!(one.deprecation_notes, vec!["earlier".to_string(), all.deprecation_notes[2].clone()]);
    let other = options.clone().finish_with(false, true);
    assert_eq!(other.deprecation_notes, vec!["earlier".to_string(), all.deprecation_notes[1].clone()]);
    let none = options.clone().finish_with(true, true);
    assert_eq!(none, options);
}

#[test]
fn the_stand_in_replaces_the_b_of_each_triple() {
    assert!(has_wide_byte("b'\u{e9}'"));
    assert!(has_wide_byte("A<[u8; b'\u{e9}']>"));
    assert!(has_wide_byte("xb'\u{20ac}"));
    assert!(!has_wide_byte("b'e'"));
    assert!(!has_wide_byte("b '\u{e9}'"));
    assert!(!has_wide_byte("'\u{e9}'"));
    assert!(!has_wide_byte("b'"));
    assert!(!has_wide_byte(""));
    assert!(!has_wide_byte("\u{e9}b'"));

    // Without a triple the text is handed on as it is.
    for text in vec!["", "b", "b'", "b'e'", "1 + 1", "\u{e9}", "'\u{e9}'", "\"b' \u{e9}\""] {
        assert_eq!(guard(text), text);
    }
    // Elsewhere a middle dot stands in.
    assert_eq!(guard("b'\u{e9}'"), "\u{b7}'\u{e9}'");
    assert_eq!(guard("\"b'\u{e9}\""), "\"\u{b7}'\u{e9}\"");
    assert_eq!(guard("ab'\u{e9}' + b'\u{20ac}'"), "a\u{b7}'\u{e9}' + \u{b7}'\u{20ac}'");
    assert_eq!(guard("'b'\u{e9}"), "'\u{b7}'\u{e9}");
    // Behind `b'` a backtick does.
    assert_eq!(guard("b'b'\u{e9}"), "b'`'\u{e9}");
    // In a hexadecimal literal the digit `a` does.
    assert_eq!(guard("0x1b'\u{e9}'"), "0x1a'\u{e9}'");
    assert_eq!(guard("0xb'\u{e9}'"), "0xa'\u{e9}'");
    assert_eq!(guard("(0x_fb'\u{e9}')"), "(0x_fa'\u{e9}')");
    assert_eq!(guard("a0x1b'\u{e9}'"), "a0x1\u{b7}'\u{e9}'");
    assert_eq!(guard("\u{e9}0x1b'\u{e9}'"), "\u{e9}0x1\u{b7}'\u{e9}'");
    assert_eq!(guard("0x1gb'\u{e9}'"), "0x1g\u{b7}'\u{e9}'");
    assert_eq!(guard("0b'\u{e9}'"), "0\u{b7}'\u{e9}'");
    assert_eq!(guard("xb'\u{e9}'"), "x\u{b7}'\u{e9}'");
    // The stand-in never holds a triple itself.
    for text in vec!["b'b'\u{e9}", "b'b'b'\u{e9}", "bb'\u{e9}b'\u{e9}", "0xb'b'\u{e9}"] {
        assert!(!has_wide_byte(&guard(text)));
    }
}

/// Where the three characters open no token the parser is asked about the
/// stand-in and answers as it does about the text itself.
#[test]
fn triples_that_open_no_token_are_read_as_the_parser_reads_them() {
    let accepted = vec![
        "\"b'\u{e9}\"",
        "r\"b'\u{e9}\"",
        "r#\"b'\u{e9}\"#",
        "br\"b'\u{e9}\"",
        "f(\"b'\u{e9}\", '\u{e9}')",
        "/* b'\u{e9} */ 1",
        "1 // b'\u{e9}",
        "// b'\u{e9}\n1",
        "/// b'\u{e9}\n1",
        "/** b'\u{e9} */ 1",
        "ab'\u{e9}'",
        "_b'\u{e9}'",
        "\u{e9}b'\u{e9}'",
        "x.ab'\u{e9}'",
        "'ab'\u{e9}'",
        "'b'\u{e9}",
        "0x1b'\u{e9}'",
        "0xb'\u{e9}'",
        "b'b'\u{e9}",
        "b\"b'\u{e9}\"",
        "[\"b'\u{e9}\", ab'\u{e9}', 0xab'\u{e9}']",
    ];
    for text in accepted {
        assert!(has_wide_byte(text), "{}", text);
        assert!(derive_builder_core::Block::from_str(text).is_ok(), "{}", text);
        assert!(block_reads(text), "{}", text);
        assert_eq!(
            DefaultExpression::Explicit(text.to_string()).parse_block(false),
            Ok(Block { source: text.to_string() }),
            "{}",
            text
        );
    }
    let rejected = vec!["\"b'\u{e9}", "(\"b'\u{e9}\"", "\"\\b'\u{e9}\""];
    for text in rejected {
        assert!(has_wide_byte(text), "{}", text);
        assert!(derive_builder_core::Block::from_str(text).is_err(), "{}", text);
        assert!(!block_reads(text), "{}", text);
    }
}

/// Where the three characters open a token the parser would panic; the
/// stand-in is rejected and the text with it.
#[test]
fn triples_that_open_a_token_are_refused() {
    let refused = vec![
        "b'\u{e9}'",
        " b'\u{e9}'",
        "\u{a0}b'\u{e9}'",
        "1 + b'\u{e9}'",
        "(b'\u{e9}')",
        "\"x\"b'\u{e9}'",
        "'a'b'\u{e9}'",
        "/* c */b'\u{e9}'",
        "1u8b'\u{e9}'",
        "1e5b'\u{e9}'",
        "1.5b'\u{e9}'",
        "0x1u8b'\u{e9}'",
        "//! b'\u{e9}",
        "/* b'\u{e9}",
        "\"b'\u{e9}\" b'\u{e9}'",
    ];
    for text in refused {
        assert!(!block_reads(text), "{}", text);
        assert_eq!(
            DefaultExpression::Explicit(text.to_string()).parse_block(false),
            Err(ConfigError::InvalidDefault(text.to_string())),
            "{}",
            text
        );
    }
    assert!(block_reads("b'e'"));
    assert!(block_reads("'\u{e9}'"));
    assert!(block_reads("\"\u{e9}\""));
    assert_eq!(
        DefaultExpression::Explicit("b'e'".to_string()).parse_block(false),
        Ok(Block { source: "b'e'".to_string() })
    );
}

#[test]
fn paths_are_asked_about_through_the_stand_in_too() {
    for text in vec!["A<[u8; \"b'\u{e9}\"]>", "ab'\u{e9}'", "a::b<'b, \u{e9}>", "\"b'\u{e9}\""] {
        assert_eq!(path_reads(text), syn::parse_path(text).is_ok(), "{}", text);
    }
    assert!(!path_reads("A<[u8; b'\u{e9}']>"));
    assert!(!path_reads("b'\u{e9}'"));
    assert!(path_reads("A<[u8; 4]>"));
    assert!(path_reads("a::b"));
    assert!(!path_reads("a b"));
    assert_eq!(
        read_path(&string("validate", "A<[u8; b'\u{e9}']>")),
        Err(ConfigError::UnknownValue("A<[u8; b'\u{e9}']>".to_string()))
    );
}

#[test]
fn finish_adds_a_notice_for_what_will_change() {
    let plain = StructOptions::new("Foo".to_string()).finish();
    assert_eq!(plain.deprecation_notes.len(), 1);
    assert!(plain.deprecation_notes[0].starts_with("Builder fields will be private by default"));
    assert!(plain.deprecation_notes[0].ends_with("(Found on struct Foo)"));

    let with_default = StructOptions {
        default: Some(DefaultExpression::Trait),
        field: Some(Visibility::Public),
        ..StructOptions::new("Foo".to_string())
    }
    .finish();
    assert_eq!(
        with_default.deprecation_notes,
        vec![
            "the meaning of `#[builder(default)]` on the struct level (found on struct Foo) will change \
             in the next version (see https://github.com/colin-kiegel/rust-derive-builder/issues/61 for \
             more details). To squelch this message and adopt the new behavior now, compile \
             `derive_builder` with `--features \"struct_default\"`."
                .to_string()
        ]
    );

    let quiet = StructOptions { field: Some(Visibility::Inherited), ..StructOptions::new("Foo".to_string()) }.finish();
    assert!(quiet.deprecation_notes.is_empty());

    // The notices go on to the builder.
    assert_eq!(plain.as_builder().unwrap().deprecation_notes, plain.deprecation_notes);
}

#[test]
fn only_lints_conditions_and_docs_are_forwarded() {
    let allow = attr(list("allow", vec![word("dead_code")]));
    let cfg = attr(list("cfg", vec![word("test")]));
    let doc = Attribute { value: string("doc", " Text."), is_sugared_doc: true };
    let serde = attr(list("serde", vec![string("rename", "hi")]));
    let derive = attr(list("derive", vec![word("Debug")]));
    let builder = attr(list("builder", vec![word("default")]));

    for a in vec![&allow, &cfg, &doc] {
        assert!(should_forward_attr(a));
    }
    for a in vec![&serde, &derive, &builder] {
        assert!(!should_forward_attr(a));
    }

    let all = vec![serde.clone(), allow.clone(), builder, doc.clone(), derive, cfg.clone()];
    assert_eq!(forward_attrs(&all), vec![allow, doc, cfg]);
    assert_eq!(forward_attrs(&vec![serde]), vec![]);
    assert_eq!(clone_attrs(&all), all);
    assert_eq!(all[0].name(), "serde");
    assert_eq!(all[0].value.duplicate(), all[0].value);
    assert_eq!(clone_strings(&vec!["a".to_string(), "b".to_string()]), vec!["a".to_string(), "b".to_string()]);
}

#[test]
fn doc_comments_name_the_struct() {
    assert_eq!(builder_doc_comment(&"Lorem".to_string()), "Builder for [`Lorem`](struct.Lorem.html).\n");
    assert_eq!(
        build_method_doc_comment(&"Lorem".to_string()),
        "Builds a new `Lorem`.\n\n# Errors\n\nIf a required field has not been initialized.\n"
    );
}

#[test]
fn default_text_follows_the_bindings() {
    assert_eq!(DefaultExpression::Trait.text(false), "::std::default::Default::default()");
    assert_eq!(DefaultExpression::Trait.text(true), "::core::default::Default::default()");
    assert_eq!(DefaultExpression::Explicit("x".to_string()).text(true), "x");
    assert_eq!(DefaultExpression::Explicit("x".to_string()).clone(), DefaultExpression::Explicit("x".to_string()));
}

#[test]
fn errors_name_what_they_are_about() {
    assert_eq!(ConfigError::UnknownField("patern".to_string()).message(), "Unexpected field `patern`");
    assert_eq!(ConfigError::DuplicateField("name".to_string()).message(), "Duplicate field `name`");
    assert_eq!(
        ConfigError::UnexpectedFormat("name".to_string()).message(),
        "Unexpected meta-item format at `name`"
    );
    assert_eq!(ConfigError::UnexpectedType("name".to_string()).message(), "Unexpected literal type at `name`");
    assert_eq!(ConfigError::UnknownValue("yes".to_string()).message(), "Unknown literal value `yes`");
    assert_eq!(ConfigError::ConflictingVisibility.message(), "A field cannot be both private and public");
    assert_eq!(
        ConfigError::EmptyDefault.message(),
        "Empty default expressions `default=\"\"` are not supported."
    );
    assert_eq!(
        ConfigError::InvalidDefault("{ 1".to_string()).message(),
        "Couldn't parse default expression `{ 1`"
    );
    assert_eq!(
        ConfigError::UnsupportedShape.message(),
        "`#[derive(Builder)]` can only be used with braced structs"
    );
    assert_eq!(ConfigError::EmptyDefault.clone(), ConfigError::EmptyDefault);
}
