//! Option resolution for a builder-deriving annotation: the struct-level and
//! field-level settings, their inheritance, and the descriptors handed to the
//! code synthesizer.
//!
//! Data flows one way: a parsed declaration ([`syntax::DeriveInput`]) is
//! read into [`options::StructOptions`] and, per field, into
//! [`options::FieldOptions`]; each field takes over what the struct level
//! says; the resolved options are projected into the descriptors of
//! [`synthesis`]. [`builder_for_struct`] runs all of it.

use vstd::prelude::*;
use vstd::string::StringExecFns;
use crate::error::{result_view, ConfigError, ConfigErrorView};
use crate::options::field_options::{lemma_from_field_identity, FieldOptionsView};
use crate::options::struct_options::{lemma_from_derive_input_identity, StructOptionsView};
use crate::options::{FieldOptions, StructOptions};
use crate::syntax::{Body, BodyView, DeriveInput, DeriveInputView, FieldView};
use crate::synthesis::{
    BuildMethodView, Builder, BuilderFieldView, BuilderFunction, BuilderFunctionView, BuilderView,
    InitializerView, SetterView,
};

pub mod error;
pub mod lexical;
pub mod options;
pub mod syntax;
pub mod synthesis;

verus! {

/// What one field contributes to the builder.
pub struct FieldFragments {
    pub field: BuilderFieldView,
    pub setter: SetterView,
    pub initializer: InitializerView,
}

/// What one field contributes: its options are read, take over what the
/// struct level says, and are projected into the builder field, the setter
/// and the initializer, in this order.
pub open spec fn field_fragments(field: FieldView, parent: StructOptionsView) -> Result<
    FieldFragments,
    ConfigErrorView,
> {
    match FieldOptionsView::from_field(field) {
        Ok(declared) => {
            let resolved = declared.with_defaults(parent);
            match resolved.as_builder_field() {
                Ok(field) => match resolved.as_setter() {
                    Ok(setter) => match resolved.as_initializer() {
                        Ok(initializer) => Ok(FieldFragments { field, setter, initializer }),
                        Err(e) => Err(e),
                    },
                    Err(e) => Err(e),
                },
                Err(e) => Err(e),
            }
        },
        Err(e) => Err(e),
    }
}

/// What the fields contribute, in declaration order, up to the first field
/// that fails.
pub open spec fn fragments(fields: Seq<FieldView>, parent: StructOptionsView) -> Result<
    Seq<FieldFragments>,
    ConfigErrorView,
>
    decreases fields.len(),
{
    if fields.len() == 0 {
        Ok(seq![])
    } else {
        match fragments(fields.drop_last(), parent) {
            Ok(done) => match field_fragments(fields.last(), parent) {
                Ok(f) => Ok(done.push(f)),
                Err(e) => Err(e),
            },
            Err(e) => Err(e),
        }
    }
}

/// The doc comment of the builder struct.
pub open spec fn builder_doc(struct_name: Seq<char>) -> Seq<char> {
    "Builder for [`"@ + struct_name + "`](struct."@ + struct_name + ".html).\n"@
}

/// The doc comment of the build method.
pub open spec fn build_method_doc(struct_name: Seq<char>) -> Seq<char> {
    "Builds a new `"@ + struct_name
        + "`.\n\n# Errors\n\nIf a required field has not been initialized.\n"@
}

/// The builder put together: the skeleton of the struct level, one field
/// and one setter per declared field, and the build method with one
/// initializer per declared field as the last function.
pub open spec fn assembled(
    ast: DeriveInputView,
    skeleton: BuilderView,
    build: BuildMethodView,
    parts: Seq<FieldFragments>,
) -> BuilderView {
    BuilderView {
        fields: parts.map_values(|p: FieldFragments| p.field),
        functions: parts.map_values(|p: FieldFragments| BuilderFunctionView::Setter(p.setter)).push(
            BuilderFunctionView::Build(
                BuildMethodView {
                    initializers: parts.map_values(|p: FieldFragments| p.initializer),
                    doc_comment: Some(build_method_doc(ast.ident)),
                    ..build
                },
            ),
        ),
        doc_comment: Some(builder_doc(ast.ident)),
        ..skeleton
    }
}

/// The builder for a declaration under the two build switches. Errors come
/// in this order: those of the struct-level options; a declaration that is no
/// braced struct; a struct-level default that is no block; then, field by
/// field, those of the field's options and of its default.
pub open spec fn builder_of_with(ast: DeriveInputView, struct_default: bool, private_fields: bool) -> Result<
    BuilderView,
    ConfigErrorView,
> {
    match StructOptionsView::from_derive_input_with(ast, struct_default, private_fields) {
        Ok(options) => match ast.body {
            BodyView::Struct(fields) => match options.as_builder() {
                Ok(skeleton) => match options.as_build_method() {
                    Ok(build) => match fragments(fields, options) {
                        Ok(parts) => Ok(assembled(ast, skeleton, build, parts)),
                        Err(e) => Err(e),
                    },
                    Err(e) => Err(e),
                },
                Err(e) => Err(e),
            },
            _ => Err(ConfigErrorView::UnsupportedShape),
        },
        Err(e) => Err(e),
    }
}

/// The builder for a declaration, with both build switches off.
pub open spec fn builder_of(ast: DeriveInputView) -> Result<BuilderView, ConfigErrorView> {
    builder_of_with(ast, false, false)
}

/// One more field: the fragments of `n + 1` fields are those of `n`,
/// followed by those of the field at `n`.
pub proof fn lemma_fragments_next(fields: Seq<FieldView>, parent: StructOptionsView, n: int)
    requires
        0 <= n < fields.len(),
    ensures
        fragments(fields.take(n + 1), parent) == match fragments(fields.take(n), parent) {
            Ok(done) => match field_fragments(fields[n], parent) {
                Ok(f) => Ok(done.push(f)),
                Err(e) => Err(e),
            },
            Err(e) => Err(e),
        },
{
    assert(fields.take(n + 1).drop_last() =~= fields.take(n));
    assert(fields.take(n + 1).last() == fields[n]);
}

/// An error stays: once the fragments of the first `n` fields have failed,
/// those of all fields fail in the same way.
pub proof fn lemma_fragments_error(fields: Seq<FieldView>, parent: StructOptionsView, n: int)
    requires
        0 <= n <= fields.len(),
        fragments(fields.take(n), parent) is Err,
    ensures
        fragments(fields, parent) == fragments(fields.take(n), parent),
    decreases fields.len() - n,
{
    if n == fields.len() {
        assert(fields.take(n) =~= fields);
    } else {
        lemma_fragments_next(fields, parent, n);
        lemma_fragments_error(fields, parent, n + 1);
    }
}

/// The fragments field by field. Where every field succeeds there is one
/// entry per field, that field's own; else the error is that of the first
/// field that fails.
pub proof fn lemma_fragments_pointwise(fields: Seq<FieldView>, parent: StructOptionsView)
    ensures
        match fragments(fields, parent) {
            Ok(parts) => parts.len() == fields.len() && forall|i: int|
                0 <= i < fields.len() ==> field_fragments(#[trigger] fields[i], parent) == Ok::<
                    FieldFragments,
                    ConfigErrorView,
                >(parts[i]),
            Err(e) => exists|i: int|
                0 <= i < fields.len() && field_fragments(#[trigger] fields[i], parent) == Err::<
                    FieldFragments,
                    ConfigErrorView,
                >(e) && forall|j: int|
                    0 <= j < i ==> field_fragments(#[trigger] fields[j], parent) is Ok,
        },
    decreases fields.len(),
{
    if fields.len() > 0 {
        let front = fields.drop_last();
        lemma_fragments_pointwise(front, parent);
        assert(forall|i: int| 0 <= i < front.len() ==> front[i] == fields[i]);
        match fragments(front, parent) {
            Ok(done) => match field_fragments(fields.last(), parent) {
                Ok(f) => {
                    let parts = done.push(f);
                    assert forall|i: int| 0 <= i < fields.len() implies field_fragments(
                        #[trigger] fields[i],
                        parent,
                    ) == Ok::<FieldFragments, ConfigErrorView>(parts[i]) by {
                        if i < front.len() {
                            assert(front[i] == fields[i]);
                        }
                    }
                },
                Err(e) => {
                    let last = fields.len() - 1;
                    assert(field_fragments(fields[last], parent) == Err::<
                        FieldFragments,
                        ConfigErrorView,
                    >(e));
                    assert forall|j: int| 0 <= j < last implies field_fragments(
                        #[trigger] fields[j],
                        parent,
                    ) is Ok by {
                        assert(front[j] == fields[j]);
                    }
                },
            },
            Err(e) => {
                let i = choose|i: int|
                    0 <= i < front.len() && field_fragments(#[trigger] front[i], parent) == Err::<
                        FieldFragments,
                        ConfigErrorView,
                    >(e) && forall|j: int|
                        0 <= j < i ==> field_fragments(#[trigger] front[j], parent) is Ok;
                assert(front[i] == fields[i]);
                assert forall|j: int| 0 <= j < i implies field_fragments(
                    #[trigger] fields[j],
                    parent,
                ) is Ok by {
                    assert(front[j] == fields[j]);
                }
            },
        }
    }
}

/// The shape of a builder: it is enabled and named after the declaration
/// or by the override; it has one field and one setter per declared field,
/// in declaration order and by the field's name; and its last function is the
/// build method, with one initializer per declared field in the same order.
pub proof fn lemma_builder_shape(ast: DeriveInputView, struct_default: bool, private_fields: bool)
    ensures
        builder_of_with(ast, struct_default, private_fields) matches Ok(b) ==> {
            &&& ast.body matches BodyView::Struct(fields)
            &&& b.enabled
            &&& b.fields.len() == fields.len()
            &&& b.functions.len() == fields.len() + 1
            &&& b.functions.last() matches BuilderFunctionView::Build(build)
            &&& build.initializers.len() == fields.len()
            &&& build.target_ty == ast.ident
            &&& forall|i: int|
                0 <= i < fields.len() ==> {
                    &&& (#[trigger] b.fields[i]).field_ident == fields[i].ident
                    &&& b.fields[i].field_type == fields[i].ty
                    &&& b.functions[i] matches BuilderFunctionView::Setter(setter)
                    &&& setter.field_ident == fields[i].ident
                    &&& build.initializers[i].field_ident == fields[i].ident
                }
        },
{
    if let Ok(b) = builder_of_with(ast, struct_default, private_fields) {
        let options = StructOptionsView::from_derive_input_with(
            ast,
            struct_default,
            private_fields,
        )->Ok_0;
        let fields = ast.body->Struct_0;
        lemma_fragments_pointwise(fields, options);
        let parts = fragments(fields, options)->Ok_0;
        lemma_from_derive_input_identity(ast, struct_default, private_fields);
        assert forall|i: int| 0 <= i < fields.len() implies {
            &&& (#[trigger] b.fields[i]).field_ident == fields[i].ident
            &&& b.fields[i].field_type == fields[i].ty
            &&& b.functions[i] matches BuilderFunctionView::Setter(setter)
            &&& setter.field_ident == fields[i].ident
            &&& b.functions.last()->Build_0.initializers[i].field_ident == fields[i].ident
        } by {
            assert(field_fragments(fields[i], options) == Ok::<FieldFragments, ConfigErrorView>(
                parts[i],
            ));
            lemma_from_field_identity(fields[i]);
        }
    }
}

/// A declared field with a setter, without a default of its own and under
/// a struct without default gets a setter and an initializer with nothing to
/// fall back on, which names the field: a build without a stored value has
/// to report that field as missing.
pub proof fn lemma_field_without_default_is_required(field: FieldView, parent: StructOptionsView)
    requires
        FieldOptionsView::from_field(field) matches Ok(o) && o.default is None && o.setter_enabled(),
        parent.default is None,
    ensures
        field_fragments(field, parent) matches Ok(f) && f.setter.enabled && f.field.setter_enabled
            && f.initializer.required() && f.initializer.field_ident == field.ident,
{
    lemma_from_field_identity(field);
}

/// A declared field whose setter is skipped, without a default of its own
/// and under a struct with a default gets no slot in the builder and an
/// initializer that reads the struct-level default.
pub proof fn lemma_skipped_field_gets_struct_default(field: FieldView, parent: StructOptionsView)
    requires
        FieldOptionsView::from_field(field) matches Ok(o) && o.default is None
            && !o.setter_enabled(),
        parent.default is Some,
    ensures
        field_fragments(field, parent) matches Ok(f) && !f.setter.enabled && !f.field.setter_enabled
            && f.initializer.reads_struct_default() && f.initializer.field_ident == field.ident,
{
    lemma_from_field_identity(field);
}

/// The doc comment of the builder struct.
pub fn builder_doc_comment(struct_name: &String) -> (r: String)
    ensures
        r@ == builder_doc(struct_name@),
{
    let mut r = String::from_str("Builder for [`");
    r.append(struct_name.as_str());
    r.append("`](struct.");
    r.append(struct_name.as_str());
    r.append(".html).\n");
    r
}

/// The doc comment of the build method.
pub fn build_method_doc_comment(struct_name: &String) -> (r: String)
    ensures
        r@ == build_method_doc(struct_name@),
{
    let mut r = String::from_str("Builds a new `");
    r.append(struct_name.as_str());
    r.append("`.\n\n# Errors\n\nIf a required field has not been initialized.\n");
    r
}

/// Resolves the options of a declaration and of each of its fields, and
/// describes the builder that is generated for it, with both build switches
/// off.
pub fn builder_for_struct(ast: &DeriveInput) -> (r: Result<Builder, ConfigError>)
    ensures
        result_view(r) == builder_of(ast@),
{
    builder_for_struct_with(ast, false, false)
}

/// Resolves the options of a declaration and of each of its fields, and
/// describes the builder that is generated for it. The two build switches
/// decide which notices the builder carries.
pub fn builder_for_struct_with(ast: &DeriveInput, struct_default: bool, private_fields: bool) -> (r: Result<
    Builder,
    ConfigError,
>)
    ensures
        result_view(r) == builder_of_with(ast@, struct_default, private_fields),
{
    let s_level = match StructOptions::from_derive_input_with(ast, struct_default, private_fields) {
        Ok(s) => s,
        Err(e) => {
            return Err(e);
        },
    };
    let fields = match &ast.body {
        Body::Struct(fields) => fields,
        _ => {
            return Err(ConfigError::UnsupportedShape);
        },
    };
    let mut builder = match s_level.as_builder() {
        Ok(b) => b,
        Err(e) => {
            return Err(e);
        },
    };
    let mut build_fn = match s_level.as_build_method() {
        Ok(b) => b,
        Err(e) => {
            return Err(e);
        },
    };
    let ghost all = fields.deep_view();
    let ghost skeleton = builder@;
    let ghost build = build_fn@;
    let ghost mut parts: Seq<FieldFragments> = seq![];
    assert(all.take(0) =~= Seq::<FieldView>::empty());
    assert(parts.map_values(|p: FieldFragments| p.field) =~= skeleton.fields);
    assert(parts.map_values(|p: FieldFragments| BuilderFunctionView::Setter(p.setter))
        =~= skeleton.functions);
    assert(parts.map_values(|p: FieldFragments| p.initializer) =~= build.initializers);
    let mut i: usize = 0;
    while i < fields.len()
        invariant
            i <= fields.len(),
            all == fields.deep_view(),
            s_level@.wf(),
            fragments(all.take(i as int), s_level@) == Ok::<Seq<FieldFragments>, ConfigErrorView>(parts),
            ast@.body == BodyView::Struct(all),
            StructOptionsView::from_derive_input_with(ast@, struct_default, private_fields) == Ok::<
                StructOptionsView,
                ConfigErrorView,
            >(s_level@),
            s_level@.as_build_method() == Ok::<BuildMethodView, ConfigErrorView>(build),
            s_level@.as_builder() == Ok::<BuilderView, ConfigErrorView>(skeleton),
            builder@ == (BuilderView {
                fields: parts.map_values(|p: FieldFragments| p.field),
                functions: parts.map_values(|p: FieldFragments| BuilderFunctionView::Setter(p.setter)),
                ..skeleton
            }),
            build_fn@ == (BuildMethodView {
                initializers: parts.map_values(|p: FieldFragments| p.initializer),
                ..build
            }),
        decreases fields.len() - i,
    {
        proof {
            lemma_fragments_next(all, s_level@, i as int);
        }
        let mut f_level = match FieldOptions::from_field(&fields[i]) {
            Ok(f) => f,
            Err(e) => {
                proof {
                    lemma_fragments_error(all, s_level@, i as int + 1);
                }
                return Err(e);
            },
        };
        f_level.with_defaults(&s_level);
        let field = match f_level.as_builder_field() {
            Ok(f) => f,
            Err(e) => {
                proof {
                    lemma_fragments_error(all, s_level@, i as int + 1);
                }
                return Err(e);
            },
        };
        let setter = match f_level.as_setter() {
            Ok(s) => s,
            Err(e) => {
                proof {
                    lemma_fragments_error(all, s_level@, i as int + 1);
                }
                return Err(e);
            },
        };
        let initializer = match f_level.as_initializer() {
            Ok(init) => init,
            Err(e) => {
                proof {
                    lemma_fragments_error(all, s_level@, i as int + 1);
                }
                return Err(e);
            },
        };
        let ghost part = FieldFragments { field: field@, setter: setter@, initializer: initializer@ };
        let ghost fields_before = builder.fields.deep_view();
        let ghost functions_before = builder.functions.deep_view();
        let ghost initializers_before = build_fn.initializers.deep_view();
        builder.fields.push(field);
        builder.functions.push(BuilderFunction::Setter(setter));
        build_fn.initializers.push(initializer);
        proof {
            assert(builder.fields.deep_view() =~= fields_before.push(part.field));
            assert(builder.functions.deep_view() =~= functions_before.push(
                BuilderFunctionView::Setter(part.setter),
            ));
            assert(build_fn.initializers.deep_view() =~= initializers_before.push(part.initializer));
            let next = parts.push(part);
            assert(next.map_values(|p: FieldFragments| p.field) =~= parts.map_values(
                |p: FieldFragments| p.field,
            ).push(part.field));
            assert(next.map_values(|p: FieldFragments| BuilderFunctionView::Setter(p.setter))
                =~= parts.map_values(|p: FieldFragments| BuilderFunctionView::Setter(p.setter)).push(
                BuilderFunctionView::Setter(part.setter),
            ));
            assert(next.map_values(|p: FieldFragments| p.initializer) =~= parts.map_values(
                |p: FieldFragments| p.initializer,
            ).push(part.initializer));
            parts = next;
        }
        i += 1;
    }
    assert(all.take(i as int) =~= all);
    builder.doc_comment = Some(builder_doc_comment(&ast.ident));
    build_fn.doc_comment = Some(build_method_doc_comment(&ast.ident));
    let ghost functions_before = builder.functions.deep_view();
    let ghost last = build_fn@;
    builder.functions.push(BuilderFunction::Build(build_fn));
    assert(builder.functions.deep_view() =~= functions_before.push(BuilderFunctionView::Build(last)));
    Ok(builder)
}

} // verus!
