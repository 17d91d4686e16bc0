//! Generation of the Rust model of a protocol: the tokens of the types,
//! commands, events and domains that a protocol description declares.

use vstd::prelude::*;
use crate::context::{opt_view, Context, CxView};
use crate::context::Frame;
use crate::protocol::{
    domain_deps, find_experimental_types, is_experimental_type, need_box_of, Annotation, Command,
    Domain, DomainType, Event, Property, Protocol, ProtocolVersion, Type,
};
use crate::text::{
    after_dot, camel_case, print_of, print_tokens, camel_case_of, cat, extend, first_piece, lit, nothing, one_lit, one_word,
    snake_case, snake_case_of, split_ref, strs, tmpl, words_from, flush, is_sep, token_stream_text, token_stream_text_of, tv, word,
    words, Tok, Token,
};

verus! {

/// `feature = "d"` for each dependency, separated by commas.
pub open spec fn feature_list(deps: Seq<Seq<char>>) -> Seq<Tok>
    decreases deps.len(),
{
    if deps.len() == 0 {
        seq![]
    } else if deps.len() == 1 {
        tmpl("feature ="@) + lit(deps[0])
    } else {
        feature_list(deps.drop_last()) + tmpl(", feature ="@) + lit(deps.last())
    }
}

/// The `cfg` attributes that gate an item on its features.
pub open spec fn meta_for_trait_impl_of(a: Annotation, deps: Option<Seq<Seq<char>>>) -> Seq<Tok> {
    match deps {
        Some(ds) => if a.experimental {
            tmpl("# [ cfg ( all ( feature = \"experimental\" ,"@) + feature_list(ds)
                + tmpl(") ) ] # [ cfg_attr ( docsrs , doc ( cfg ( all ( feature = \"experimental\" ,"@)
                + feature_list(ds) + tmpl(") ) ) ) ]"@)
        } else {
            tmpl("# [ cfg ( all ("@) + feature_list(ds) + tmpl(") ) ] # [ cfg_attr ( docsrs , doc ( cfg ( all ("@)
                + feature_list(ds) + tmpl(") ) ) ) ]"@)
        },
        None => if a.experimental {
            tmpl("# [ cfg ( feature = \"experimental\" ) ] # [ cfg_attr ( docsrs , doc ( cfg ( feature = \"experimental\" ) ) ) ]"@)
        } else {
            seq![]
        },
    }
}

/// The attributes of an item: `deprecated` where it is, then its `cfg`s.
pub open spec fn meta_of(a: Annotation, deps: Option<Seq<Seq<char>>>) -> Seq<Tok> {
    (if a.deprecated {
        tmpl("# [ deprecated ]"@)
    } else {
        seq![]
    }) + meta_for_trait_impl_of(a, deps)
}

/// The documentation attribute of an item, if it has a description.
pub open spec fn doc_of(a: Annotation) -> Seq<Tok> {
    match a.description {
        Some(d) => tmpl("# [ doc ="@) + lit(d@) + tmpl("]"@),
        None => seq![],
    }
}

/// The view of optional dependencies.
pub open spec fn deps_view(deps: Option<&Vec<String>>) -> Option<Seq<Seq<char>>> {
    match deps {
        Some(v) => Some(strs(v@)),
        None => None,
    }
}

fn feature_list_tokens(deps: &Vec<String>) -> (r: Vec<Token>)
    ensures
        tv(r@) == feature_list(strs(deps@)),
{
    let mut out = nothing();
    let mut i: usize = 0;
    while i < deps.len()
        invariant
            i <= deps@.len(),
            tv(out@) == feature_list(strs(deps@).take(i as int)),
        decreases deps@.len() - i,
    {
        let ghost pre = strs(deps@).take(i as int);
        let ghost now = strs(deps@).take(i + 1);
        assert(now.drop_last() =~= pre);
        assert(now.last() == deps@[i as int]@);
        if i == 0 {
            assert(pre =~= Seq::<Seq<char>>::empty());
            let mut w = words("feature =");
            extend(&mut w, one_lit(deps[i].clone()));
            extend(&mut out, w);
        } else {
            extend(&mut out, words(", feature ="));
            extend(&mut out, one_lit(deps[i].clone()));
        }
        i = i + 1;
    }
    assert(strs(deps@).take(i as int) =~= strs(deps@));
    out
}

/// The `cfg` attributes that gate an item on its features.
pub fn meta_for_trait_impl(a: &Annotation, deps: Option<&Vec<String>>) -> (r: Vec<Token>)
    ensures
        tv(r@) == meta_for_trait_impl_of(*a, deps_view(deps)),
{
    match deps {
        Some(ds) => if a.experimental {
            let mut out = words("# [ cfg ( all ( feature = \"experimental\" ,");
            extend(&mut out, feature_list_tokens(ds));
            extend(&mut out, words(") ) ] # [ cfg_attr ( docsrs , doc ( cfg ( all ( feature = \"experimental\" ,"));
            extend(&mut out, feature_list_tokens(ds));
            extend(&mut out, words(") ) ) ) ]"));
            out
        } else {
            let mut out = words("# [ cfg ( all (");
            extend(&mut out, feature_list_tokens(ds));
            extend(&mut out, words(") ) ] # [ cfg_attr ( docsrs , doc ( cfg ( all ("));
            extend(&mut out, feature_list_tokens(ds));
            extend(&mut out, words(") ) ) ) ]"));
            out
        },
        None => if a.experimental {
            words("# [ cfg ( feature = \"experimental\" ) ] # [ cfg_attr ( docsrs , doc ( cfg ( feature = \"experimental\" ) ) ) ]")
        } else {
            nothing()
        },
    }
}

/// The attributes of an item.
pub fn meta(a: &Annotation, deps: Option<&Vec<String>>) -> (r: Vec<Token>)
    ensures
        tv(r@) == meta_of(*a, deps_view(deps)),
{
    let mut out = if a.deprecated {
        words("# [ deprecated ]")
    } else {
        nothing()
    };
    extend(&mut out, meta_for_trait_impl(a, deps));
    out
}

/// The documentation attribute of an item.
pub fn doc(a: &Annotation) -> (r: Vec<Token>)
    ensures
        tv(r@) == doc_of(*a),
{
    match &a.description {
        Some(d) => {
            let mut out = words("# [ doc =");
            extend(&mut out, one_lit(d.clone()));
            extend(&mut out, words("]"));
            out
        },
        None => nothing(),
    }
}

/// The tokens of a reference to a declared type, `&`-prefixed when `amp`:
/// `JsonValue` where the referenced type is experimental, else the type's
/// path (`domain::Type`, or `Type` within the current domain).
pub open spec fn ref_tokens_of(cx: CxView, r: Seq<char>, amp: bool) -> Seq<Tok> {
    let pre = if amp {
        tmpl("&"@)
    } else {
        seq![]
    };
    let a = first_piece(r);
    match after_dot(r) {
        Some(rest) => if cx.is_experimental(a, first_piece(rest)) {
            pre + tmpl("JsonValue"@)
        } else {
            pre + word(snake_case_of(a)) + tmpl("::"@) + word(camel_case_of(first_piece(rest)))
        },
        None => if cx.is_experimental(cx.domain(), a) {
            pre + tmpl("JsonValue"@)
        } else {
            pre + word(camel_case_of(a))
        },
    }
}

/// The tokens of the Rust type that stores a value of type `t`.
pub open spec fn ty_of(cx: CxView, t: Type) -> Seq<Tok>
    decreases t,
{
    match t {
        Type::String | Type::Binary => tmpl("String"@),
        Type::EnumString(..) | Type::Object(..) => word(cx.type_ident()),
        Type::Integer => tmpl("u32"@),
        Type::Number => tmpl("f64"@),
        Type::Boolean => tmpl("bool"@),
        Type::Array(item) => tmpl("Vec <"@) + ty_of(cx, *item) + tmpl(">"@),
        Type::Option(item) => tmpl("Option <"@) + ty_of(cx, *item) + tmpl(">"@),
        Type::Any => tmpl("JsonValue"@),
        Type::Ref(r) => ref_tokens_of(cx, r@, false),
    }
}

/// The tokens of the Rust type that a getter of a value of type `t` returns.
pub open spec fn tyref_of(cx: CxView, t: Type) -> Seq<Tok> {
    match t {
        Type::String | Type::Binary => tmpl("& str"@),
        Type::EnumString(..) | Type::Object(..) => tmpl("&"@) + word(cx.type_ident()),
        Type::Integer => tmpl("u32"@),
        Type::Number => tmpl("f64"@),
        Type::Boolean => tmpl("bool"@),
        Type::Array(item) => tmpl("& ["@) + ty_of(cx, *item) + tmpl("]"@),
        Type::Option(item) => tmpl("Option < &"@) + ty_of(cx, *item) + tmpl(">"@),
        Type::Any => tmpl("& JsonValue"@),
        Type::Ref(r) => ref_tokens_of(cx, r@, true),
    }
}

/// The expression a getter returns for the field `ident` of type `t`.
pub open spec fn refexpr_of(t: Type, ident: Seq<char>) -> Seq<Tok> {
    match t {
        Type::Integer | Type::Number | Type::Boolean => tmpl("self ."@) + word(ident),
        Type::Option(inner) => if need_box_of(*inner) {
            tmpl("( & * self ."@) + word(ident) + tmpl(") . as_ref ( )"@)
        } else {
            tmpl("self ."@) + word(ident) + tmpl(". as_ref ( )"@)
        },
        _ => tmpl("& self ."@) + word(ident),
    }
}

/// The type of a builder's slot for a value of type `t`.
pub open spec fn builder_ty_of(cx: CxView, t: Type) -> Seq<Tok> {
    if t is Option {
        ty_of(cx, t)
    } else {
        tmpl("Option <"@) + ty_of(cx, t) + tmpl(">"@)
    }
}

/// The type a builder's setter takes for a value of type `t`.
pub open spec fn builder_setty_of(cx: CxView, t: Type) -> Seq<Tok> {
    match t {
        Type::Option(item) => ty_of(cx, *item),
        _ => ty_of(cx, t),
    }
}

fn ref_tokens(cx: &Context, r: &String, amp: bool) -> (out: Vec<Token>)
    ensures
        tv(out@) == ref_tokens_of(cx@, r@, amp),
{
    let (a, second) = split_ref(r.as_str());
    let mut out = if amp {
        words("&")
    } else {
        nothing()
    };
    match second {
        Some(typ) => {
            if cx.experimentals.contains(a.as_str(), typ.as_str()) {
                extend(&mut out, words("JsonValue"));
            } else {
                extend(&mut out, one_word(snake_case(a.as_str())));
                extend(&mut out, words("::"));
                extend(&mut out, one_word(camel_case(typ.as_str())));
            }
        },
        None => {
            let d = cx.domain();
            if cx.experimentals.contains(d.as_str(), a.as_str()) {
                extend(&mut out, words("JsonValue"));
            } else {
                extend(&mut out, one_word(camel_case(a.as_str())));
            }
        },
    }
    out
}

/// The tokens of the Rust type that stores a value of type `t`.
pub fn type_tokens(cx: &Context, t: &Type) -> (r: Vec<Token>)
    ensures
        tv(r@) == ty_of(cx@, *t),
    decreases t,
{
    match t {
        Type::String | Type::Binary => words("String"),
        Type::EnumString(..) | Type::Object(..) => one_word(cx.type_ident()),
        Type::Integer => words("u32"),
        Type::Number => words("f64"),
        Type::Boolean => words("bool"),
        Type::Array(item) => {
            let mut out = words("Vec <");
            extend(&mut out, type_tokens(cx, item));
            extend(&mut out, words(">"));
            out
        },
        Type::Option(item) => {
            let mut out = words("Option <");
            extend(&mut out, type_tokens(cx, item));
            extend(&mut out, words(">"));
            out
        },
        Type::Any => words("JsonValue"),
        Type::Ref(r) => ref_tokens(cx, r, false),
    }
}

/// A type as it stands in a field, with the name suffix its nested
/// definitions get.
pub struct NestedType<'a> {
    pub suffix: Option<String>,
    pub ty: &'a Type,
}

impl<'a> NestedType<'a> {
    /// A nested type without a name suffix.
    pub fn new(ty: &'a Type) -> (r: Self)
        ensures
            r.suffix is None,
            r.ty == ty,
    {
        NestedType { suffix: None, ty }
    }

    /// A nested type whose definitions are named with `suffix`.
    pub fn new_with_suffix(ty: &'a Type, suffix: &str) -> (r: Self)
        ensures
            r.suffix matches Some(s) && s@ == suffix@,
            r.ty == ty,
    {
        NestedType { suffix: Some(String::from_str(suffix)), ty }
    }

    /// The Rust type that stores a value of this type.
    pub fn ty(&self, cx: &Context) -> (r: Vec<Token>)
        ensures
            tv(r@) == ty_of(cx@, *self.ty),
    {
        type_tokens(cx, self.ty)
    }

    /// The Rust type a getter of this type returns.
    pub fn tyref(&self, cx: &Context) -> (r: Vec<Token>)
        ensures
            tv(r@) == tyref_of(cx@, *self.ty),
    {
        match self.ty {
            Type::String | Type::Binary => words("& str"),
            Type::EnumString(..) | Type::Object(..) => {
                let mut out = words("&");
                extend(&mut out, one_word(cx.type_ident()));
                out
            },
            Type::Integer => words("u32"),
            Type::Number => words("f64"),
            Type::Boolean => words("bool"),
            Type::Array(item) => {
                let mut out = words("& [");
                extend(&mut out, type_tokens(cx, item));
                extend(&mut out, words("]"));
                out
            },
            Type::Option(item) => {
                let mut out = words("Option < &");
                extend(&mut out, type_tokens(cx, item));
                extend(&mut out, words(">"));
                out
            },
            Type::Any => words("& JsonValue"),
            Type::Ref(r) => ref_tokens(cx, r, true),
        }
    }

    /// The expression a getter of the field `ident` of this type returns.
    pub fn refexpr(&self, ident: &String) -> (r: Vec<Token>)
        ensures
            tv(r@) == refexpr_of(*self.ty, ident@),
    {
        match self.ty {
            Type::Integer | Type::Number | Type::Boolean => {
                let mut out = words("self .");
                extend(&mut out, one_word(ident.clone()));
                out
            },
            Type::Option(inner) => if inner.need_box() {
                let mut out = words("( & * self .");
                extend(&mut out, one_word(ident.clone()));
                extend(&mut out, words(") . as_ref ( )"));
                out
            } else {
                let mut out = words("self .");
                extend(&mut out, one_word(ident.clone()));
                extend(&mut out, words(". as_ref ( )"));
                out
            },
            _ => {
                let mut out = words("& self .");
                extend(&mut out, one_word(ident.clone()));
                out
            },
        }
    }

    /// The type of a builder's slot for this type.
    pub fn builder_ty(&self, cx: &Context) -> (r: Vec<Token>)
        ensures
            tv(r@) == builder_ty_of(cx@, *self.ty),
    {
        let ty = type_tokens(cx, self.ty);
        if let Type::Option(..) = self.ty {
            ty
        } else {
            let mut out = words("Option <");
            extend(&mut out, ty);
            extend(&mut out, words(">"));
            out
        }
    }

    /// The type a builder's setter takes for this type.
    pub fn builder_setty(&self, cx: &Context) -> (r: Vec<Token>)
        ensures
            tv(r@) == builder_setty_of(cx@, *self.ty),
    {
        match self.ty {
            Type::Option(item) => type_tokens(cx, item),
            _ => type_tokens(cx, self.ty),
        }
    }
}


/// The annotation of items that have none.
pub open spec fn no_annotation() -> Annotation {
    Annotation { description: None, experimental: false, deprecated: false }
}

/// The identifier of a field: the raw snake-case form of its name.
pub open spec fn ident_of(f: Property) -> Seq<char> {
    "r#"@ + snake_case_of(f.name@)
}

/// The context of a field's type: that of its struct, named after the field.
pub open spec fn field_cx(cx: CxView, f: Property) -> CxView {
    cx.with_name(camel_case_of(f.name@))
}

/// The declaration of a field in its struct.
pub open spec fn field_decl_of(cx: CxView, f: Property) -> Seq<Tok> {
    let fcx = field_cx(cx, f);
    doc_of(f.annotation) + meta_of(f.annotation, None) + (if f.ty is Option {
        tmpl("# [ serde ( skip_serializing_if = \"Option::is_none\" ) ]"@)
    } else {
        seq![]
    }) + tmpl("# [ serde ( rename ="@) + lit(f.name@) + tmpl(") ]"@) + word(ident_of(f)) + tmpl(":"@) + (
    if need_box_of(f.ty) {
        tmpl("Box <"@) + ty_of(fcx, f.ty) + tmpl(">"@)
    } else {
        ty_of(fcx, f.ty)
    })
}

/// The getter of a field.
pub open spec fn getter_of(cx: CxView, f: Property) -> Seq<Tok> {
    doc_of(f.annotation) + meta_of(f.annotation, None) + tmpl("pub fn"@) + word(ident_of(f)) + tmpl(
        "( & self ) ->"@) + tyref_of(field_cx(cx, f), f.ty) + tmpl("{"@) + refexpr_of(f.ty, ident_of(f))
        + tmpl("}"@)
}

/// The declaration of a field's slot in the struct's builder.
pub open spec fn builder_decl_of(cx: CxView, f: Property) -> Seq<Tok> {
    doc_of(f.annotation) + meta_of(f.annotation, None) + word(ident_of(f)) + tmpl(":"@) + builder_ty_of(
        field_cx(cx, f), f.ty)
}

/// The setter of a field in the struct's builder.
pub open spec fn builder_setter_of(cx: CxView, f: Property) -> Seq<Tok> {
    doc_of(f.annotation) + meta_of(f.annotation, None) + tmpl("pub fn"@) + word(ident_of(f)) + tmpl(
        "( & mut self , v :"@) + builder_setty_of(field_cx(cx, f), f.ty) + tmpl(
        ") -> & mut Self { self ."@) + word(ident_of(f)) + tmpl("= Some ( v ) ; self }"@)
}

/// The initial, empty slot of a field in the builder's `default`.
pub open spec fn builder_contract_of(cx: CxView, f: Property) -> Seq<Tok> {
    meta_for_trait_impl_of(f.annotation, None) + word(ident_of(f)) + tmpl(": None as"@) + builder_ty_of(
        field_cx(cx, f), f.ty)
}

/// The statement of `build` that takes a field's slot.
pub open spec fn builder_take_of(f: Property) -> Seq<Tok> {
    meta_for_trait_impl_of(f.annotation, None) + tmpl("let"@) + word(ident_of(f)) + tmpl("= self ."@)
        + word(ident_of(f)) + tmpl(". take ( ) ;"@)
}

/// The message of `build` when a required field's slot is empty.
pub open spec fn needs_msg_of(f: Property) -> Seq<char> {
    "needs "@ + ident_of(f)
}

/// The initialiser of a field in `build`: optional fields are moved in,
/// required ones fail with a message when their slot is empty; boxed fields
/// are boxed.
pub open spec fn builder_assign_of(f: Property) -> Seq<Tok> {
    let id = word(ident_of(f));
    meta_for_trait_impl_of(f.annotation, None) + if f.ty is Option {
        if need_box_of(f.ty) {
            id + tmpl(": Box :: new ("@) + id + tmpl(")"@)
        } else {
            id
        }
    } else {
        if need_box_of(f.ty) {
            id + tmpl(": Box :: new ("@) + id + tmpl(". ok_or ("@) + lit(needs_msg_of(f)) + tmpl(") ? )"@)
        } else {
            id + tmpl(":"@) + id + tmpl(". ok_or ("@) + lit(needs_msg_of(f)) + tmpl(") ?"@)
        }
    }
}

/// A parameter of `new` for a field.
pub open spec fn new_param_of(cx: CxView, f: Property) -> Seq<Tok> {
    meta_for_trait_impl_of(f.annotation, None) + word(ident_of(f)) + tmpl(":"@) + ty_of(field_cx(cx, f), f.ty)
}

/// The initialiser of a field in `new`, boxed where the field is.
pub open spec fn assign_of(f: Property) -> Seq<Tok> {
    if need_box_of(f.ty) {
        word(ident_of(f)) + tmpl(": Box :: new ("@) + word(ident_of(f)) + tmpl(")"@)
    } else {
        word(ident_of(f))
    }
}

/// What is generated for each field of a struct.
#[derive(Clone, Copy)]
pub enum Part {
    FieldDecl,
    Getter,
    BuilderDecl,
    BuilderSetter,
    BuilderContract,
    BuilderTake,
    BuilderAssign,
    NestedTy,
    NewParam,
    NewAssign,
}

/// What is generated for field `f` of a struct in context `cx`.
pub open spec fn part_of(kind: Part, cx: CxView, f: Property) -> Seq<Tok>
    decreases f, 0int,
{
    match kind {
        Part::FieldDecl => field_decl_of(cx, f) + tmpl(","@),
        Part::Getter => getter_of(cx, f),
        Part::BuilderDecl => builder_decl_of(cx, f) + tmpl(","@),
        Part::BuilderSetter => builder_setter_of(cx, f),
        Part::BuilderContract => builder_contract_of(cx, f) + tmpl(","@),
        Part::BuilderTake => builder_take_of(f),
        Part::BuilderAssign => builder_assign_of(f) + tmpl(","@),
        Part::NestedTy => nested_render_of(field_cx(cx, f), f.ty),
        Part::NewParam => new_param_of(cx, f) + tmpl(","@),
        Part::NewAssign => meta_for_trait_impl_of(f.annotation, None) + assign_of(f) + tmpl(","@),
    }
}

/// What is generated for the first `n` fields of a struct, in order.
pub open spec fn parts_of(kind: Part, cx: CxView, fs: Seq<Property>, n: int) -> Seq<Tok>
    decreases fs, n,
{
    if n <= 0 || n > fs.len() {
        seq![]
    } else {
        parts_of(kind, cx, fs, n - 1) + part_of(kind, cx, fs[n - 1])
    }
}

/// The definitions a value of type `t` needs: those of the enums and
/// structs it holds, however deeply nested in arrays and options.
pub open spec fn nested_render_of(cx: CxView, t: Type) -> Seq<Tok>
    decreases t, 1int,
{
    match t {
        Type::EnumString(..) | Type::Object(..) => type_def_of(cx, no_annotation(), t),
        Type::Array(item) => nested_render_of(cx.with_none(), *item),
        Type::Option(item) => nested_render_of(cx.with_none(), *item),
        _ => seq![],
    }
}

/// Whether a type can be defined on its own: strings, integers, numbers,
/// arrays, enums and objects.
pub open spec fn definable(t: Type) -> bool {
    t is String || t is Integer || t is Number || t is Array || t is EnumString || t is Object
}

/// The `derive` of a generated data type, without `Default`.
pub open spec fn derive_of() -> Seq<Tok> {
    tmpl("# [ derive ( Debug , Clone , Serialize , Deserialize ) ]"@)
}

/// The variants of an enum generated for a string enumeration.
pub open spec fn variants_of(items: Seq<Seq<char>>) -> Seq<Tok>
    decreases items.len(),
{
    if items.len() == 0 {
        seq![]
    } else {
        variants_of(items.drop_last()) + tmpl("# [ doc ="@) + lit(items.last()) + tmpl(
            "] # [ serde ( rename ="@) + lit(items.last()) + tmpl(") ]"@) + word(camel_case_of(items.last()))
            + tmpl(","@)
    }
}

/// The definition of a named type of type `t` with annotation `a`.
pub open spec fn type_def_of(cx: CxView, a: Annotation, t: Type) -> Seq<Tok>
    decreases t, 0int,
{
    let name = word(cx.type_ident());
    let mti = meta_for_trait_impl_of(a, None);
    match t {
        Type::String => doc_of(a) + meta_of(a, None) + derive_of() + tmpl("pub struct"@) + name + tmpl(
            "( String ) ;"@) + mti + tmpl("impl From < String > for"@) + name + tmpl(
            "{ fn from ( v : String ) -> Self { Self ( v ) } }"@) + mti + tmpl("impl From < & str > for"@)
            + name + tmpl("{ fn from ( v : & str ) -> Self { Self ( v . into ( ) ) } }"@) + mti + tmpl(
            "impl Deref for"@) + name + tmpl(
            "{ type Target = str ; fn deref ( & self ) -> & Self :: Target { & self . 0 } }"@),
        Type::Integer => doc_of(a) + meta_of(a, None) + derive_of() + tmpl("pub struct"@) + name + tmpl(
            "( u32 ) ;"@) + mti + tmpl("impl From < u32 > for"@) + name + tmpl(
            "{ fn from ( v : u32 ) -> Self { Self ( v ) } }"@) + mti + tmpl("impl Deref for"@) + name
            + tmpl("{ type Target = u32 ; fn deref ( & self ) -> & Self :: Target { & self . 0 } }"@),
        Type::Number => doc_of(a) + meta_of(a, None) + derive_of() + tmpl("pub struct"@) + name + tmpl(
            "( f64 ) ;"@) + mti + tmpl("impl From < f64 > for"@) + name + tmpl(
            "{ fn from ( v : f64 ) -> Self { Self ( v ) } }"@) + mti + tmpl("impl Deref for"@) + name
            + tmpl("{ type Target = f64 ; fn deref ( & self ) -> & Self :: Target { & self . 0 } }"@),
        Type::Array(item) => nested_render_of(cx.with_none(), *item) + doc_of(a) + meta_of(a, None)
            + derive_of() + tmpl("pub struct"@) + name + tmpl("( Vec <"@) + ty_of(cx, *item) + tmpl(
            "> ) ;"@) + mti + tmpl("impl FromIterator <"@) + ty_of(cx, *item) + tmpl("> for"@) + name
            + tmpl("{ fn from_iter < T > ( iter : T ) -> Self where T : IntoIterator < Item ="@) + ty_of(
            cx, *item) + tmpl("> { Self ( FromIterator :: from_iter ( iter ) ) } }"@),
        Type::EnumString(items) => meta_of(a, None) + derive_of() + tmpl("pub enum"@) + name + tmpl(
            "{"@) + variants_of(strs(items@)) + tmpl("}"@),
        Type::Object(props) => render_struct_of(cx, a, props@),
        _ => seq![],
    }
}

/// The struct generated for fields `fs` with annotation `a`: without fields
/// a unit-like struct with `new`; with one field a struct with `new`, a
/// getter and `Deref` to the field; with two or three a struct with `new`
/// and getters; with more a struct with getters and a builder.
pub open spec fn render_struct_of(cx: CxView, a: Annotation, fs: Seq<Property>) -> Seq<Tok>
    decreases fs, fs.len() + 1,
{
    let name = word(cx.type_ident());
    let dc = doc_of(a);
    let mt = meta_of(a, None);
    if fs.len() == 0 {
        dc + mt + tmpl("# [ derive ( Debug , Clone , Default , Serialize , Deserialize ) ] pub struct"@)
            + name + tmpl("{ }"@) + mt + tmpl("impl"@) + name + tmpl(
            "{ pub fn new ( ) -> Self { Default :: default ( ) } }"@)
    } else if fs.len() == 1 {
        let f = fs[0];
        let fmeta = meta_for_trait_impl_of(f.annotation, None);
        let bare = ty_of(field_cx(cx, f), f.ty);
        nested_render_of(field_cx(cx, f), f.ty) + dc + mt + derive_of() + tmpl("pub struct"@) + name
            + tmpl("{"@) + field_decl_of(cx, f) + tmpl(", }"@) + mt + tmpl("impl"@) + name + tmpl(
            "{ pub fn new ("@) + fmeta + word(ident_of(f)) + tmpl(":"@) + bare + tmpl(
            ") -> Self { Self {"@) + fmeta + assign_of(f) + tmpl("} }"@) + getter_of(cx, f) + tmpl("}"@)
            + meta_for_trait_impl_of(a, None) + fmeta + tmpl("impl Deref for"@) + name + tmpl(
            "{ type Target ="@) + bare + tmpl("; fn deref ( & self ) -> & Self :: Target { & self ."@)
            + word(ident_of(f)) + tmpl("} }"@)
    } else if fs.len() <= 3 {
        let n = fs.len() as int;
        parts_of(Part::NestedTy, cx, fs, n) + dc + mt + derive_of() + tmpl("pub struct"@) + name + tmpl(
            "{"@) + parts_of(Part::FieldDecl, cx, fs, n) + tmpl("}"@) + mt + tmpl("impl"@) + name + tmpl(
            "{ pub fn new ("@) + parts_of(Part::NewParam, cx, fs, n) + tmpl(") -> Self { Self {"@)
            + parts_of(Part::NewAssign, cx, fs, n) + tmpl("} }"@) + parts_of(Part::Getter, cx, fs, n)
            + tmpl("}"@)
    } else {
        let n = fs.len() as int;
        let builder = word(cx.type_ident() + "Builder"@);
        parts_of(Part::NestedTy, cx, fs, n) + dc + mt + derive_of() + tmpl("pub struct"@) + name + tmpl(
            "{"@) + parts_of(Part::FieldDecl, cx, fs, n) + tmpl("}"@) + mt + tmpl("impl"@) + name + tmpl(
            "{ pub fn builder ( ) ->"@) + builder + tmpl("{ Default :: default ( ) }"@) + parts_of(
            Part::Getter, cx, fs, n) + tmpl("}"@) + mt + tmpl("# [ derive ( Debug , Clone ) ] pub struct"@)
            + builder + tmpl("{"@) + parts_of(Part::BuilderDecl, cx, fs, n) + tmpl("}"@)
            + meta_for_trait_impl_of(a, None) + tmpl("impl Default for"@) + builder + tmpl(
            "{ fn default ( ) -> Self { Self {"@) + parts_of(Part::BuilderContract, cx, fs, n) + tmpl(
            "} } }"@) + mt + tmpl("impl"@) + builder + tmpl("{"@) + parts_of(Part::BuilderSetter, cx, fs, n)
            + tmpl("pub fn build ( & mut self ) -> Result <"@) + name + tmpl(", & 'static str > {"@)
            + parts_of(Part::BuilderTake, cx, fs, n) + tmpl("Ok ("@) + name + tmpl("{"@) + parts_of(
            Part::BuilderAssign, cx, fs, n) + tmpl("} ) } }"@)
    }
}


impl Property {
    /// The identifier of this field.
    pub fn ident(&self) -> (r: String)
        ensures
            r@ == ident_of(*self),
    {
        let s = snake_case(self.name.as_str());
        cat("r#", s.as_str())
    }

    /// The nested type of this field, named after the field.
    pub fn nested_type(&self) -> (r: NestedType<'_>)
        ensures
            r.suffix matches Some(s) && s@ == camel_case_of(self.name@),
            *r.ty == self.ty,
    {
        let c = camel_case(self.name.as_str());
        NestedType::new_with_suffix(&self.ty, c.as_str())
    }

    /// Whether this field is stored boxed.
    pub fn need_box(&self) -> (r: bool)
        ensures
            r == need_box_of(self.ty),
    {
        self.ty.need_box()
    }

    /// The declaration of this field in its struct.
    pub fn render_field_declaration(&self, cx: &Context) -> (r: Vec<Token>)
        ensures
            tv(r@) == field_decl_of(cx@, *self),
    {
        let c = camel_case(self.name.as_str());
        let fcx = cx.with_name(c.as_str());
        let mut out = doc(&self.annotation);
        extend(&mut out, meta(&self.annotation, None));
        if let Type::Option(..) = &self.ty {
            extend(&mut out, words("# [ serde ( skip_serializing_if = \"Option::is_none\" ) ]"));
        } else {
            extend(&mut out, nothing());
        }
        extend(&mut out, words("# [ serde ( rename ="));
        extend(&mut out, one_lit(self.name.clone()));
        extend(&mut out, words(") ]"));
        extend(&mut out, one_word(self.ident()));
        extend(&mut out, words(":"));
        let ty = type_tokens(&fcx, &self.ty);
        if self.need_box() {
            let mut b = words("Box <");
            extend(&mut b, ty);
            extend(&mut b, words(">"));
            extend(&mut out, b);
        } else {
            extend(&mut out, ty);
        }
        out
    }

    /// The getter of this field.
    pub fn render_getter(&self, cx: &Context) -> (r: Vec<Token>)
        ensures
            tv(r@) == getter_of(cx@, *self),
    {
        let c = camel_case(self.name.as_str());
        let fcx = cx.with_name(c.as_str());
        let ident = self.ident();
        let nt = NestedType::new(&self.ty);
        let mut out = doc(&self.annotation);
        extend(&mut out, meta(&self.annotation, None));
        extend(&mut out, words("pub fn"));
        extend(&mut out, one_word(ident.clone()));
        extend(&mut out, words("( & self ) ->"));
        extend(&mut out, nt.tyref(&fcx));
        extend(&mut out, words("{"));
        extend(&mut out, nt.refexpr(&ident));
        extend(&mut out, words("}"));
        out
    }

    /// The declaration of this field's slot in the builder.
    pub fn render_builder_field_declaration(&self, cx: &Context) -> (r: Vec<Token>)
        ensures
            tv(r@) == builder_decl_of(cx@, *self),
    {
        let c = camel_case(self.name.as_str());
        let fcx = cx.with_name(c.as_str());
        let nt = NestedType::new(&self.ty);
        let mut out = doc(&self.annotation);
        extend(&mut out, meta(&self.annotation, None));
        extend(&mut out, one_word(self.ident()));
        extend(&mut out, words(":"));
        extend(&mut out, nt.builder_ty(&fcx));
        out
    }

    /// The setter of this field in the builder.
    pub fn render_builder_setter(&self, cx: &Context) -> (r: Vec<Token>)
        ensures
            tv(r@) == builder_setter_of(cx@, *self),
    {
        let c = camel_case(self.name.as_str());
        let fcx = cx.with_name(c.as_str());
        let nt = NestedType::new(&self.ty);
        let ident = self.ident();
        let mut out = doc(&self.annotation);
        extend(&mut out, meta(&self.annotation, None));
        extend(&mut out, words("pub fn"));
        extend(&mut out, one_word(ident.clone()));
        extend(&mut out, words("( & mut self , v :"));
        extend(&mut out, nt.builder_setty(&fcx));
        extend(&mut out, words(") -> & mut Self { self ."));
        extend(&mut out, one_word(ident));
        extend(&mut out, words("= Some ( v ) ; self }"));
        out
    }

    /// The initial, empty slot of this field in the builder's `default`.
    pub fn render_builder_contract(&self, cx: &Context) -> (r: Vec<Token>)
        ensures
            tv(r@) == builder_contract_of(cx@, *self),
    {
        let c = camel_case(self.name.as_str());
        let fcx = cx.with_name(c.as_str());
        let nt = NestedType::new(&self.ty);
        let mut out = meta_for_trait_impl(&self.annotation, None);
        extend(&mut out, one_word(self.ident()));
        extend(&mut out, words(": None as"));
        extend(&mut out, nt.builder_ty(&fcx));
        out
    }

    /// The statement of `build` that takes this field's slot.
    pub fn render_builder_take(&self) -> (r: Vec<Token>)
        ensures
            tv(r@) == builder_take_of(*self),
    {
        let ident = self.ident();
        let mut out = meta_for_trait_impl(&self.annotation, None);
        extend(&mut out, words("let"));
        extend(&mut out, one_word(ident.clone()));
        extend(&mut out, words("= self ."));
        extend(&mut out, one_word(ident));
        extend(&mut out, words(". take ( ) ;"));
        out
    }

    /// The initialiser of this field in `build`.
    pub fn render_builder_assign(&self) -> (r: Vec<Token>)
        ensures
            tv(r@) == builder_assign_of(*self),
    {
        let ident = self.ident();
        let mut out = meta_for_trait_impl(&self.annotation, None);
        let mut pair = one_word(ident.clone());
        if let Type::Option(..) = &self.ty {
            if self.need_box() {
                extend(&mut pair, words(": Box :: new ("));
                extend(&mut pair, one_word(ident));
                extend(&mut pair, words(")"));
            }
        } else {
            let msg = cat("needs ", ident.as_str());
            if self.need_box() {
                extend(&mut pair, words(": Box :: new ("));
                extend(&mut pair, one_word(ident));
                extend(&mut pair, words(". ok_or ("));
                extend(&mut pair, one_lit(msg));
                extend(&mut pair, words(") ? )"));
            } else {
                extend(&mut pair, words(":"));
                extend(&mut pair, one_word(ident));
                extend(&mut pair, words(". ok_or ("));
                extend(&mut pair, one_lit(msg));
                extend(&mut pair, words(") ?"));
            }
        }
        extend(&mut out, pair);
        out
    }

    /// The initialiser of this field in `new`.
    fn render_assign(&self) -> (r: Vec<Token>)
        ensures
            tv(r@) == assign_of(*self),
    {
        let ident = self.ident();
        let mut out = one_word(ident.clone());
        if self.need_box() {
            extend(&mut out, words(": Box :: new ("));
            extend(&mut out, one_word(ident));
            extend(&mut out, words(")"));
        }
        out
    }

    /// The parameter of `new` for this field.
    fn render_new_param(&self, cx: &Context) -> (r: Vec<Token>)
        ensures
            tv(r@) == new_param_of(cx@, *self),
    {
        let c = camel_case(self.name.as_str());
        let fcx = cx.with_name(c.as_str());
        let mut out = meta_for_trait_impl(&self.annotation, None);
        extend(&mut out, one_word(self.ident()));
        extend(&mut out, words(":"));
        extend(&mut out, type_tokens(&fcx, &self.ty));
        out
    }
}

/// What is generated for field `f` of a struct in context `cx`.
pub fn render_part(kind: Part, cx: &Context, f: &Property) -> (r: Vec<Token>)
    ensures
        tv(r@) == part_of(kind, cx@, *f),
    decreases f, 0int,
{
    match kind {
        Part::FieldDecl => {
            let mut out = f.render_field_declaration(cx);
            extend(&mut out, words(","));
            out
        },
        Part::Getter => f.render_getter(cx),
        Part::BuilderDecl => {
            let mut out = f.render_builder_field_declaration(cx);
            extend(&mut out, words(","));
            out
        },
        Part::BuilderSetter => f.render_builder_setter(cx),
        Part::BuilderContract => {
            let mut out = f.render_builder_contract(cx);
            extend(&mut out, words(","));
            out
        },
        Part::BuilderTake => f.render_builder_take(),
        Part::BuilderAssign => {
            let mut out = f.render_builder_assign();
            extend(&mut out, words(","));
            out
        },
        Part::NestedTy => {
            let c = camel_case(f.name.as_str());
            let fcx = cx.with_name(c.as_str());
            nested_render(&fcx, &f.ty)
        },
        Part::NewParam => {
            let mut out = f.render_new_param(cx);
            extend(&mut out, words(","));
            out
        },
        Part::NewAssign => {
            let mut out = meta_for_trait_impl(&f.annotation, None);
            extend(&mut out, f.render_assign());
            extend(&mut out, words(","));
            out
        },
    }
}

/// What is generated for each field of a struct, in order.
pub fn render_parts(kind: Part, cx: &Context, fs: &Vec<Property>) -> (r: Vec<Token>)
    ensures
        tv(r@) == parts_of(kind, cx@, fs@, fs@.len() as int),
    decreases fs@, fs@.len(),
{
    let mut out = nothing();
    let mut i: usize = 0;
    while i < fs.len()
        invariant
            i <= fs@.len(),
            tv(out@) == parts_of(kind, cx@, fs@, i as int),
        decreases fs@.len() - i,
    {
        extend(&mut out, render_part(kind, cx, &fs[i]));
        i = i + 1;
    }
    out
}

/// The definitions a value of type `t` needs.
pub fn nested_render(cx: &Context, t: &Type) -> (r: Vec<Token>)
    ensures
        tv(r@) == nested_render_of(cx@, *t),
    decreases t, 1int,
{
    match t {
        Type::EnumString(..) | Type::Object(..) => {
            let a = Annotation::default();
            assert(a == no_annotation());
            assert(definable(*t));
            render_type_definition(cx, &a, t)
        },
        Type::Array(item) => {
            let c = cx.with_none();
            nested_render(&c, item)
        },
        Type::Option(item) => {
            let c = cx.with_none();
            nested_render(&c, item)
        },
        _ => nothing(),
    }
}

impl<'a> NestedType<'a> {
    /// The context this nested type is rendered in: named with its suffix.
    pub fn enter<'b>(&self, cx: &'b Context<'b>) -> (r: Context<'b>)
        ensures
            r@ == match self.suffix {
                Some(s) => cx@.with_name(s@),
                None => cx@.with_none(),
            },
    {
        match &self.suffix {
            Some(s) => cx.with_name(s.as_str()),
            None => cx.with_none(),
        }
    }

    /// The definitions this nested type needs, rendered in its context.
    pub fn render_in(&self, cx: &Context) -> (r: Vec<Token>)
        ensures
            tv(r@) == nested_render_of(
                match self.suffix {
                    Some(s) => cx@.with_name(s@),
                    None => cx@.with_none(),
                },
                *self.ty,
            ),
    {
        let c = self.enter(cx);
        nested_render(&c, self.ty)
    }
}

fn derive_tokens() -> (r: Vec<Token>)
    ensures
        tv(r@) == derive_of(),
{
    words("# [ derive ( Debug , Clone , Serialize , Deserialize ) ]")
}

fn variants(items: &Vec<String>) -> (r: Vec<Token>)
    ensures
        tv(r@) == variants_of(strs(items@)),
{
    let mut out = nothing();
    let mut i: usize = 0;
    while i < items.len()
        invariant
            i <= items@.len(),
            tv(out@) == variants_of(strs(items@).take(i as int)),
        decreases items@.len() - i,
    {
        let ghost now = strs(items@).take(i + 1);
        assert(now.drop_last() =~= strs(items@).take(i as int));
        assert(now.last() == items@[i as int]@);
        extend(&mut out, words("# [ doc ="));
        extend(&mut out, one_lit(items[i].clone()));
        extend(&mut out, words("] # [ serde ( rename ="));
        extend(&mut out, one_lit(items[i].clone()));
        extend(&mut out, words(") ]"));
        extend(&mut out, one_word(camel_case(items[i].as_str())));
        extend(&mut out, words(","));
        i = i + 1;
    }
    assert(strs(items@).take(i as int) =~= strs(items@));
    out
}

/// The definition of the named type of type `t` with annotation `a`, named
/// after the context.
pub fn render_type_definition(cx: &Context, a: &Annotation, t: &Type) -> (r: Vec<Token>)
    requires
        definable(*t),
    ensures
        tv(r@) == type_def_of(cx@, *a, *t),
    decreases t, 0int,
{
    let name = cx.type_ident();
    match t {
        Type::String => {
            let mut out = doc(a);
            extend(&mut out, meta(a, None));
            extend(&mut out, derive_tokens());
            extend(&mut out, words("pub struct"));
            extend(&mut out, one_word(name.clone()));
            extend(&mut out, words("( String ) ;"));
            extend(&mut out, meta_for_trait_impl(a, None));
            extend(&mut out, words("impl From < String > for"));
            extend(&mut out, one_word(name.clone()));
            extend(&mut out, words("{ fn from ( v : String ) -> Self { Self ( v ) } }"));
            extend(&mut out, meta_for_trait_impl(a, None));
            extend(&mut out, words("impl From < & str > for"));
            extend(&mut out, one_word(name.clone()));
            extend(&mut out, words("{ fn from ( v : & str ) -> Self { Self ( v . into ( ) ) } }"));
            extend(&mut out, meta_for_trait_impl(a, None));
            extend(&mut out, words("impl Deref for"));
            extend(&mut out, one_word(name));
            extend(&mut out, words("{ type Target = str ; fn deref ( & self ) -> & Self :: Target { & self . 0 } }"));
            out
        },
        Type::Integer => {
            let mut out = doc(a);
            extend(&mut out, meta(a, None));
            extend(&mut out, derive_tokens());
            extend(&mut out, words("pub struct"));
            extend(&mut out, one_word(name.clone()));
            extend(&mut out, words("( u32 ) ;"));
            extend(&mut out, meta_for_trait_impl(a, None));
            extend(&mut out, words("impl From < u32 > for"));
            extend(&mut out, one_word(name.clone()));
            extend(&mut out, words("{ fn from ( v : u32 ) -> Self { Self ( v ) } }"));
            extend(&mut out, meta_for_trait_impl(a, None));
            extend(&mut out, words("impl Deref for"));
            extend(&mut out, one_word(name));
            extend(&mut out, words("{ type Target = u32 ; fn deref ( & self ) -> & Self :: Target { & self . 0 } }"));
            out
        },
        Type::Number => {
            let mut out = doc(a);
            extend(&mut out, meta(a, None));
            extend(&mut out, derive_tokens());
            extend(&mut out, words("pub struct"));
            extend(&mut out, one_word(name.clone()));
            extend(&mut out, words("( f64 ) ;"));
            extend(&mut out, meta_for_trait_impl(a, None));
            extend(&mut out, words("impl From < f64 > for"));
            extend(&mut out, one_word(name.clone()));
            extend(&mut out, words("{ fn from ( v : f64 ) -> Self { Self ( v ) } }"));
            extend(&mut out, meta_for_trait_impl(a, None));
            extend(&mut out, words("impl Deref for"));
            extend(&mut out, one_word(name));
            extend(&mut out, words("{ type Target = f64 ; fn deref ( & self ) -> & Self :: Target { & self . 0 } }"));
            out
        },
        Type::Array(item) => {
            let c = cx.with_none();
            let mut out = nested_render(&c, item);
            extend(&mut out, doc(a));
            extend(&mut out, meta(a, None));
            extend(&mut out, derive_tokens());
            extend(&mut out, words("pub struct"));
            extend(&mut out, one_word(name.clone()));
            extend(&mut out, words("( Vec <"));
            extend(&mut out, type_tokens(cx, item));
            extend(&mut out, words("> ) ;"));
            extend(&mut out, meta_for_trait_impl(a, None));
            extend(&mut out, words("impl FromIterator <"));
            extend(&mut out, type_tokens(cx, item));
            extend(&mut out, words("> for"));
            extend(&mut out, one_word(name));
            extend(&mut out, words("{ fn from_iter < T > ( iter : T ) -> Self where T : IntoIterator < Item ="));
            extend(&mut out, type_tokens(cx, item));
            extend(&mut out, words("> { Self ( FromIterator :: from_iter ( iter ) ) } }"));
            out
        },
        Type::EnumString(items) => {
            let mut out = meta(a, None);
            extend(&mut out, derive_tokens());
            extend(&mut out, words("pub enum"));
            extend(&mut out, one_word(name));
            extend(&mut out, words("{"));
            extend(&mut out, variants(items));
            extend(&mut out, words("}"));
            out
        },
        Type::Object(props) => render_struct(cx, a, props),
        _ => nothing(),
    }
}

/// The struct generated for the fields `fs` with annotation `a`, named after
/// the context (see `render_struct_of`).
pub fn render_struct(cx: &Context, a: &Annotation, fs: &Vec<Property>) -> (r: Vec<Token>)
    ensures
        tv(r@) == render_struct_of(cx@, *a, fs@),
    decreases fs@, fs@.len() + 1,
{
    reveal(render_struct_of);
    let name = cx.type_ident();
    if fs.len() == 0 {
        let mut out = doc(a);
        extend(&mut out, meta(a, None));
        extend(&mut out, words("# [ derive ( Debug , Clone , Default , Serialize , Deserialize ) ] pub struct"));
        extend(&mut out, one_word(name.clone()));
        extend(&mut out, words("{ }"));
        extend(&mut out, meta(a, None));
        extend(&mut out, words("impl"));
        extend(&mut out, one_word(name));
        extend(&mut out, words("{ pub fn new ( ) -> Self { Default :: default ( ) } }"));
        out
    } else if fs.len() == 1 {
        let f = &fs[0];
        let c = camel_case(f.name.as_str());
        let fcx = cx.with_name(c.as_str());
        let ident = f.ident();
        let mut out = nested_render(&fcx, &f.ty);
        extend(&mut out, doc(a));
        extend(&mut out, meta(a, None));
        extend(&mut out, derive_tokens());
        extend(&mut out, words("pub struct"));
        extend(&mut out, one_word(name.clone()));
        extend(&mut out, words("{"));
        extend(&mut out, f.render_field_declaration(cx));
        extend(&mut out, words(", }"));
        extend(&mut out, meta(a, None));
        extend(&mut out, words("impl"));
        extend(&mut out, one_word(name.clone()));
        extend(&mut out, words("{ pub fn new ("));
        extend(&mut out, meta_for_trait_impl(&f.annotation, None));
        extend(&mut out, one_word(ident.clone()));
        extend(&mut out, words(":"));
        extend(&mut out, type_tokens(&fcx, &f.ty));
        extend(&mut out, words(") -> Self { Self {"));
        extend(&mut out, meta_for_trait_impl(&f.annotation, None));
        extend(&mut out, f.render_assign());
        extend(&mut out, words("} }"));
        extend(&mut out, f.render_getter(cx));
        extend(&mut out, words("}"));
        extend(&mut out, meta_for_trait_impl(a, None));
        extend(&mut out, meta_for_trait_impl(&f.annotation, None));
        extend(&mut out, words("impl Deref for"));
        extend(&mut out, one_word(name));
        extend(&mut out, words("{ type Target ="));
        extend(&mut out, type_tokens(&fcx, &f.ty));
        extend(&mut out, words("; fn deref ( & self ) -> & Self :: Target { & self ."));
        extend(&mut out, one_word(ident));
        extend(&mut out, words("} }"));
        out
    } else if fs.len() <= 3 {
        let mut out = render_parts(Part::NestedTy, cx, fs);
        extend(&mut out, doc(a));
        extend(&mut out, meta(a, None));
        extend(&mut out, derive_tokens());
        extend(&mut out, words("pub struct"));
        extend(&mut out, one_word(name.clone()));
        extend(&mut out, words("{"));
        extend(&mut out, render_parts(Part::FieldDecl, cx, fs));
        extend(&mut out, words("}"));
        extend(&mut out, meta(a, None));
        extend(&mut out, words("impl"));
        extend(&mut out, one_word(name));
        extend(&mut out, words("{ pub fn new ("));
        extend(&mut out, render_parts(Part::NewParam, cx, fs));
        extend(&mut out, words(") -> Self { Self {"));
        extend(&mut out, render_parts(Part::NewAssign, cx, fs));
        extend(&mut out, words("} }"));
        extend(&mut out, render_parts(Part::Getter, cx, fs));
        extend(&mut out, words("}"));
        out
    } else {
        let builder = cat(name.as_str(), "Builder");
        let mut out = render_parts(Part::NestedTy, cx, fs);
        extend(&mut out, doc(a));
        extend(&mut out, meta(a, None));
        extend(&mut out, derive_tokens());
        extend(&mut out, words("pub struct"));
        extend(&mut out, one_word(name.clone()));
        extend(&mut out, words("{"));
        extend(&mut out, render_parts(Part::FieldDecl, cx, fs));
        extend(&mut out, words("}"));
        extend(&mut out, meta(a, None));
        extend(&mut out, words("impl"));
        extend(&mut out, one_word(name.clone()));
        extend(&mut out, words("{ pub fn builder ( ) ->"));
        extend(&mut out, one_word(builder.clone()));
        extend(&mut out, words("{ Default :: default ( ) }"));
        extend(&mut out, render_parts(Part::Getter, cx, fs));
        extend(&mut out, words("}"));
        extend(&mut out, meta(a, None));
        extend(&mut out, words("# [ derive ( Debug , Clone ) ] pub struct"));
        extend(&mut out, one_word(builder.clone()));
        extend(&mut out, words("{"));
        extend(&mut out, render_parts(Part::BuilderDecl, cx, fs));
        extend(&mut out, words("}"));
        extend(&mut out, meta_for_trait_impl(a, None));
        extend(&mut out, words("impl Default for"));
        extend(&mut out, one_word(builder.clone()));
        extend(&mut out, words("{ fn default ( ) -> Self { Self {"));
        extend(&mut out, render_parts(Part::BuilderContract, cx, fs));
        extend(&mut out, words("} } }"));
        extend(&mut out, meta(a, None));
        extend(&mut out, words("impl"));
        extend(&mut out, one_word(builder));
        extend(&mut out, words("{"));
        extend(&mut out, render_parts(Part::BuilderSetter, cx, fs));
        extend(&mut out, words("pub fn build ( & mut self ) -> Result <"));
        extend(&mut out, one_word(name.clone()));
        extend(&mut out, words(", & 'static str > {"));
        extend(&mut out, render_parts(Part::BuilderTake, cx, fs));
        extend(&mut out, words("Ok ("));
        extend(&mut out, one_word(name));
        extend(&mut out, words("{"));
        extend(&mut out, render_parts(Part::BuilderAssign, cx, fs));
        extend(&mut out, words("} ) } }"));
        out
    }
}


/// The definition of a domain type, in the context `cx` of its domain's
/// type list.
#[verifier::opaque]
pub open spec fn domain_type_of(cx: CxView, t: DomainType) -> Seq<Tok> {
    type_def_of(cx.with_name(camel_case_of(t.id@)), t.annotation, t.ty)
}

/// The struct of a command's parameters and its `Command` impl, in the
/// command's context `cx`.
#[verifier::opaque]
pub open spec fn command_param_of(cx: CxView, c: Command) -> Seq<Tok> {
    let pname = camel_case_of(c.name@) + "Command"@;
    let rname = camel_case_of(c.name@) + "Return"@;
    let pc = cx.with_name(pname);
    render_struct_of(pc, c.annotation, c.parameters@) + meta_for_trait_impl_of(c.annotation, None) + tmpl(
        "impl Command for"@) + word(pname) + tmpl("{ type Return ="@) + word(rname) + tmpl(
        "; const METHOD : & 'static str ="@) + lit(pc.domain() + "."@ + c.name@) + tmpl("; }"@)
}

/// The struct of a command's return values, in the command's context `cx`.
#[verifier::opaque]
pub open spec fn command_return_of(cx: CxView, c: Command) -> Seq<Tok> {
    render_struct_of(cx.with_name(camel_case_of(c.name@) + "Return"@), c.annotation, c.returns@)
}

/// What a command generates, in its context `cx`.
#[verifier::opaque]
pub open spec fn command_of(cx: CxView, c: Command) -> Seq<Tok> {
    command_param_of(cx, c) + command_return_of(cx, c)
}

/// The struct of an event's parameters, in the context `cx` of its domain's
/// event list.
#[verifier::opaque]
pub open spec fn event_of(cx: CxView, e: Event) -> Seq<Tok> {
    render_struct_of(cx.with_name(camel_case_of(e.name@) + "Event"@), e.annotation, e.parameters@)
}

/// The definitions of the first `n` types of a domain.
pub open spec fn types_of(cx: CxView, ts: Seq<DomainType>, n: int) -> Seq<Tok>
    decreases n,
{
    if n <= 0 || n > ts.len() {
        seq![]
    } else {
        types_of(cx, ts, n - 1) + domain_type_of(cx, ts[n - 1])
    }
}

/// What the first `n` commands of a domain generate.
pub open spec fn commands_of(cx: CxView, cs: Seq<Command>, n: int) -> Seq<Tok>
    decreases n,
{
    if n <= 0 || n > cs.len() {
        seq![]
    } else {
        commands_of(cx, cs, n - 1) + command_of(cx.with_none(), cs[n - 1])
    }
}

/// What the first `n` events of a domain generate.
pub open spec fn events_of(cx: CxView, es: Seq<Event>, n: int) -> Seq<Tok>
    decreases n,
{
    if n <= 0 || n > es.len() {
        seq![]
    } else {
        events_of(cx, es, n - 1) + event_of(cx, es[n - 1])
    }
}

/// Whether every type a domain declares can be defined.
pub open spec fn domain_definable(d: Domain) -> bool {
    forall|j: int| 0 <= j < d.types@.len() ==> definable(#[trigger] d.types@[j].ty)
}

/// The module of a domain, in the context `cx` it is entered from.
#[verifier::opaque]
pub open spec fn domain_of(cx: CxView, d: Domain) -> Seq<Tok> {
    let lc = cx.with_domain(d.domain@).with_none();
    doc_of(d.annotation) + meta_of(d.annotation, Some(domain_deps(d))) + tmpl("pub mod"@) + word(
        snake_case_of(d.domain@)) + tmpl("{ use super :: * ;"@) + types_of(lc, d.types@, d.types@.len() as int)
        + commands_of(lc, d.commands@, d.commands@.len() as int) + events_of(
        lc, d.events@, d.events@.len() as int) + tmpl("}"@)
}

/// The constant holding the protocol version.
pub open spec fn version_of(v: ProtocolVersion) -> Seq<Tok> {
    tmpl("# [ doc = \"Generating Chrome DevTools protocol version.\" ] pub const VERSION : & str ="@) + lit(
        v.major@ + "."@ + v.minor@) + tmpl(";"@)
}

/// The variant of the `Event` enum for event `e` of domain `d`.
pub open spec fn event_variant_of(d: Domain, e: Event) -> Seq<Tok> {
    doc_of(e.annotation) + meta_of(d.annotation, Some(domain_deps(d))) + meta_of(e.annotation, None)
        + tmpl("# [ serde ( rename ="@) + lit(d.domain@ + "."@ + e.name@) + tmpl(") ]"@) + word(
        camel_case_of(d.domain@) + camel_case_of(e.name@)) + tmpl("("@) + word(snake_case_of(d.domain@))
        + tmpl("::"@) + word(camel_case_of(e.name@) + "Event"@) + tmpl(") ,"@)
}

/// The variants for the first `n` events of domain `d`.
pub open spec fn domain_event_variants_of(d: Domain, n: int) -> Seq<Tok>
    decreases n,
{
    if n <= 0 || n > d.events@.len() {
        seq![]
    } else {
        domain_event_variants_of(d, n - 1) + event_variant_of(d, d.events@[n - 1])
    }
}

/// The variants for the events of the first `n` domains.
pub open spec fn event_variants_of(ds: Seq<Domain>, n: int) -> Seq<Tok>
    decreases n,
{
    if n <= 0 || n > ds.len() {
        seq![]
    } else {
        event_variants_of(ds, n - 1) + domain_event_variants_of(ds[n - 1], ds[n - 1].events@.len() as int)
    }
}

/// The `Event` enum: one variant per event of the protocol, and one for
/// events it does not know.
pub open spec fn render_event_of(p: Protocol) -> Seq<Tok> {
    tmpl(EVENT_HEAD@) + event_variants_of(p.domains@, p.domains@.len() as int) + tmpl(EVENT_TAIL@)
}

/// The modules of the first `n` domains.
pub open spec fn domains_of(cx: CxView, ds: Seq<Domain>, n: int) -> Seq<Tok>
    decreases n,
{
    if n <= 0 || n > ds.len() {
        seq![]
    } else {
        domains_of(cx, ds, n - 1) + domain_of(cx, ds[n - 1])
    }
}

/// The whole generated program for `p`, in its context `cx`.
pub open spec fn protocol_of(cx: CxView, p: Protocol) -> Seq<Tok> {
    tmpl("mod g {"@) + tmpl(COMMON_ITEMS@) + version_of(p.version) + domains_of(
        cx.with_none(), p.domains@, p.domains@.len() as int) + render_event_of(p) + tmpl(
        "} pub use g :: * ;"@)
}

/// The experimental types of `p`.
pub open spec fn experimental_set(p: Protocol) -> Set<(Seq<char>, Seq<char>)> {
    Set::new(|q: (Seq<char>, Seq<char>)| is_experimental_type(p, q.0, q.1))
}

/// The outermost context for `p`.
pub open spec fn root_of(p: Protocol) -> CxView {
    CxView { experimentals: experimental_set(p), frames: seq![Frame { domain: None, name: None }] }
}

/// Whether every type that `p` declares can be defined.
pub open spec fn protocol_definable(p: Protocol) -> bool {
    forall|i: int| 0 <= i < p.domains@.len() ==> domain_definable(#[trigger] p.domains@[i])
}

/// The program generated for `p`.
pub open spec fn render_of(p: Protocol) -> Seq<Tok> {
    protocol_of(root_of(p).with_none(), p)
}

/// The items every generated program starts with: the session id, the
/// request and response messages, and the `Command` trait.
pub const COMMON_ITEMS: &'static str = "
# ! [ allow ( deprecated ) ]
# ! [ allow ( clippy :: many_single_char_names ) ]
# ! [ allow ( clippy :: new_without_default ) ]
# ! [ allow ( clippy :: wrong_self_convention ) ]
use std :: iter :: { IntoIterator , FromIterator } ;
use std :: ops :: Deref ;
use serde :: { Serialize , Deserialize } ;
use serde_json :: Value as JsonValue ;
# [ doc = \"Session id.\" ]
# [ derive ( Debug , Clone , PartialEq , Eq , Hash , Serialize , Deserialize ) ]
pub struct SessionId ( String ) ;
impl From < & str > for SessionId { fn from ( v : & str ) -> Self { Self ( v . into ( ) ) } }
impl From < String > for SessionId { fn from ( v : String ) -> Self { Self ( v ) } }
# [ doc = \"Message from client.\" ]
# [ derive ( Debug , Clone , Serialize ) ]
pub struct Request < T > where T : Command , {
  # [ serde ( rename = \"sessionId\" , skip_serializing_if = \"Option::is_none\" ) ]
  session_id : Option < SessionId > ,
  id : u32 ,
  method : & 'static str ,
  params : T ,
}
# [ doc ( hidden ) ]
# [ derive ( Debug , Clone , Deserialize ) ]
# [ serde ( untagged ) ]
pub enum RawResponse {
  Event { # [ serde ( rename = \"sessionId\" ) ] session_id : Option < SessionId > , # [ serde ( flatten ) ] event : Event , } ,
  UnknownEvent { # [ serde ( rename = \"sessionId\" ) ] session_id : Option < SessionId > , method : String , params : JsonValue , } ,
  Return { # [ serde ( rename = \"sessionId\" ) ] session_id : Option < SessionId > , id : u32 , result : JsonValue , } ,
  Error { # [ serde ( rename = \"sessionId\" ) ] session_id : Option < SessionId > , id : u32 , error : JsonValue , } ,
}
impl From < RawResponse > for Response {
  fn from ( v : RawResponse ) -> Self {
    match v {
      RawResponse :: Event { session_id , event } => Self :: Event ( session_id , event ) ,
      RawResponse :: UnknownEvent { session_id , method , params , } => Self :: Event ( session_id , Event :: Unknown ( method , params ) ) ,
      RawResponse :: Return { session_id , id , result } => Self :: Return ( session_id , id , result ) ,
      RawResponse :: Error { session_id , id , error , } => Self :: Error ( session_id , id , error ) ,
    }
  }
}
# [ doc = \"Message structure from Chrome.\" ]
# [ derive ( Debug , Clone , Deserialize ) ]
# [ serde ( from = \"RawResponse\" ) ]
pub enum Response {
  # [ doc = \"Event message.\" ] Event ( Option < SessionId > , Event ) ,
  # [ doc = \"Command success message.\" ] Return ( Option < SessionId > , u32 , JsonValue ) ,
  # [ doc = \"Command failure message.\" ] Error ( Option < SessionId > , u32 , JsonValue ) ,
}
# [ doc = \"Chrome DevTools Protocol Command.\" ]
pub trait Command : Serialize {
  # [ doc = \"Return type.\" ] type Return : for < 'a > Deserialize < 'a > ;
  # [ doc = \"Command method name.\" ] const METHOD : & 'static str ;
  # [ doc = \"Into command request.\" ]
  fn into_request ( self , session_id : Option < SessionId > , id : u32 ) -> Request < Self > where Self : Sized , {
    Request { session_id , id , method : Self :: METHOD , params : self , }
  }
}
";

/// The start of the `Event` enum.
pub const EVENT_HEAD: &'static str = "# [ doc = \"Chrome DevTools Protocol event.\" ] # [ derive ( Debug , Clone , Deserialize ) ] # [ serde ( tag = \"method\" , content = \"params\" ) ] pub enum Event {";

/// The end of the `Event` enum: the variant for unknown events.
pub const EVENT_TAIL: &'static str = "# [ doc = \"Unknown event.\" ] # [ serde ( skip ) ] Unknown ( String , JsonValue ) , }";

impl DomainType {
    /// The context this type is rendered in: named after the type.
    pub fn enter<'b>(&self, cx: &'b Context<'b>) -> (r: Context<'b>)
        ensures
            r@ == cx@.with_name(camel_case_of(self.id@)),
    {
        let c = camel_case(self.id.as_str());
        cx.with_name(c.as_str())
    }

    /// The definition of this type, in its context.
    pub fn render(&self, cx: &Context) -> (r: Vec<Token>)
        requires
            definable(self.ty),
        ensures
            tv(r@) == type_def_of(cx@, self.annotation, self.ty),
    {
        render_type_definition(cx, &self.annotation, &self.ty)
    }
}

impl Command {
    /// The struct of this command's parameters and its `Command` impl.
    pub fn render_parameter(&self, cx: &Context) -> (r: Vec<Token>)
        ensures
            tv(r@) == command_param_of(cx@, *self),
    {
        reveal(command_param_of);
        let pname = self.pname();
        let rname = self.rname();
        let pc = cx.with_name(pname.as_str());
        let mut out = render_struct(&pc, &self.annotation, &self.parameters);
        extend(&mut out, meta_for_trait_impl(&self.annotation, None));
        extend(&mut out, words("impl Command for"));
        extend(&mut out, one_word(pname));
        extend(&mut out, words("{ type Return ="));
        extend(&mut out, one_word(rname));
        extend(&mut out, words("; const METHOD : & 'static str ="));
        let d = pc.domain();
        let dd = cat(d.as_str(), ".");
        extend(&mut out, one_lit(cat(dd.as_str(), self.name.as_str())));
        extend(&mut out, words("; }"));
        out
    }

    /// The struct of this command's return values.
    pub fn render_return(&self, cx: &Context) -> (r: Vec<Token>)
        ensures
            tv(r@) == command_return_of(cx@, *self),
    {
        reveal(command_return_of);
        let rname = self.rname();
        let rc = cx.with_name(rname.as_str());
        render_struct(&rc, &self.annotation, &self.returns)
    }

    /// What this command generates, in its context.
    pub fn render(&self, cx: &Context) -> (r: Vec<Token>)
        ensures
            tv(r@) == command_of(cx@, *self),
    {
        reveal(command_of);
        let mut out = self.render_parameter(cx);
        extend(&mut out, self.render_return(cx));
        out
    }
}

impl Event {
    /// The context this event is rendered in: named after the event.
    pub fn enter<'b>(&self, cx: &'b Context<'b>) -> (r: Context<'b>)
        ensures
            r@ == cx@.with_name(camel_case_of(self.name@) + "Event"@),
    {
        let c = camel_case(self.name.as_str());
        let n = cat(c.as_str(), "Event");
        cx.with_name(n.as_str())
    }

    /// The struct of this event's parameters, in the context `cx` of its
    /// domain's event list.
    pub fn render_in(&self, cx: &Context) -> (r: Vec<Token>)
        ensures
            tv(r@) == event_of(cx@, *self),
    {
        reveal(event_of);
        let c = self.enter(cx);
        render_struct(&c, &self.annotation, &self.parameters)
    }
}

impl ProtocolVersion {
    /// The constant holding the protocol version.
    pub fn render(&self) -> (r: Vec<Token>)
        ensures
            tv(r@) == version_of(*self),
    {
        let mut out = words("# [ doc = \"Generating Chrome DevTools protocol version.\" ] pub const VERSION : & str =");
        let m = cat(self.major.as_str(), ".");
        extend(&mut out, one_lit(cat(m.as_str(), self.minor.as_str())));
        extend(&mut out, words(";"));
        out
    }
}

fn render_types(cx: &Context, ts: &Vec<DomainType>) -> (r: Vec<Token>)
    requires
        forall|j: int| 0 <= j < ts@.len() ==> definable(#[trigger] ts@[j].ty),
    ensures
        tv(r@) == types_of(cx@, ts@, ts@.len() as int),
{
    let mut out = nothing();
    let mut i: usize = 0;
    while i < ts.len()
        invariant
            i <= ts@.len(),
            forall|j: int| 0 <= j < ts@.len() ==> definable(#[trigger] ts@[j].ty),
            tv(out@) == types_of(cx@, ts@, i as int),
        decreases ts@.len() - i,
    {
        let t = &ts[i];
        assert(definable(ts@[i as int].ty));
        reveal(domain_type_of);
        let tc = t.enter(cx);
        extend(&mut out, t.render(&tc));
        i = i + 1;
    }
    out
}

fn render_commands(cx: &Context, cs: &Vec<Command>) -> (r: Vec<Token>)
    ensures
        tv(r@) == commands_of(cx@, cs@, cs@.len() as int),
{
    let mut out = nothing();
    let mut i: usize = 0;
    while i < cs.len()
        invariant
            i <= cs@.len(),
            tv(out@) == commands_of(cx@, cs@, i as int),
        decreases cs@.len() - i,
    {
        let cc = cx.with_none();
        extend(&mut out, cs[i].render(&cc));
        i = i + 1;
    }
    out
}

fn render_events(cx: &Context, es: &Vec<Event>) -> (r: Vec<Token>)
    ensures
        tv(r@) == events_of(cx@, es@, es@.len() as int),
{
    let mut out = nothing();
    let mut i: usize = 0;
    while i < es.len()
        invariant
            i <= es@.len(),
            tv(out@) == events_of(cx@, es@, i as int),
        decreases es@.len() - i,
    {
        extend(&mut out, es[i].render_in(cx));
        i = i + 1;
    }
    out
}

impl Domain {
    /// The module of this domain, in the context `cx` it is entered from.
    pub fn render_in(&self, cx: &Context) -> (r: Vec<Token>)
        requires
            domain_definable(*self),
        ensures
            tv(r@) == domain_of(cx@, *self),
    {
        reveal(domain_of);
        let dc = cx.with_domain(self.domain.as_str());
        let lc = dc.with_none();
        let deps = self.deps();
        let mut out = doc(&self.annotation);
        extend(&mut out, meta(&self.annotation, Some(&deps)));
        if self.experimental() {
            extend(&mut out, words("# [ cfg ( feature = \"experimental\" ) ]"));
        }
        extend(&mut out, words("pub mod"));
        extend(&mut out, one_word(snake_case(self.domain.as_str())));
        extend(&mut out, words("{ use super :: * ;"));
        extend(&mut out, render_types(&lc, &self.types));
        extend(&mut out, render_commands(&lc, &self.commands));
        extend(&mut out, render_events(&lc, &self.events));
        extend(&mut out, words("}"));
        out
    }
}

fn render_domains(cx: &Context, ds: &Vec<Domain>) -> (r: Vec<Token>)
    requires
        forall|i: int| 0 <= i < ds@.len() ==> domain_definable(#[trigger] ds@[i]),
    ensures
        tv(r@) == domains_of(cx@, ds@, ds@.len() as int),
{
    let mut out = nothing();
    let mut i: usize = 0;
    while i < ds.len()
        invariant
            i <= ds@.len(),
            forall|i: int| 0 <= i < ds@.len() ==> domain_definable(#[trigger] ds@[i]),
            tv(out@) == domains_of(cx@, ds@, i as int),
        decreases ds@.len() - i,
    {
        assert(domain_definable(ds@[i as int]));
        extend(&mut out, ds[i].render_in(cx));
        i = i + 1;
    }
    out
}

/// The items every generated program starts with.
pub fn render_common() -> (r: Vec<Token>)
    ensures
        tv(r@) == tmpl(COMMON_ITEMS@),
{
    words(COMMON_ITEMS)
}

/// The `Event` enum of the protocol.
pub fn render_event(p: &Protocol) -> (r: Vec<Token>)
    ensures
        tv(r@) == render_event_of(*p),
{
    let mut variants = nothing();
    let mut i: usize = 0;
    while i < p.domains.len()
        invariant
            i <= p.domains@.len(),
            tv(variants@) == event_variants_of(p.domains@, i as int),
        decreases p.domains@.len() - i,
    {
        let d = &p.domains[i];
        let deps = d.deps();
        let camel_domain = camel_case(d.domain.as_str());
        let snake_domain = snake_case(d.domain.as_str());
        let mut dv = nothing();
        let mut j: usize = 0;
        while j < d.events.len()
            invariant
                i < p.domains@.len(),
                *d == p.domains@[i as int],
                j <= d.events@.len(),
                strs(deps@) == domain_deps(*d),
                camel_domain@ == camel_case_of(d.domain@),
                snake_domain@ == snake_case_of(d.domain@),
                tv(dv@) == domain_event_variants_of(*d, j as int),
            decreases d.events@.len() - j,
        {
            let e = &d.events[j];
            let mut v = doc(&e.annotation);
            extend(&mut v, meta(&d.annotation, Some(&deps)));
            extend(&mut v, meta(&e.annotation, None));
            extend(&mut v, words("# [ serde ( rename ="));
            let dd = cat(d.domain.as_str(), ".");
            extend(&mut v, one_lit(cat(dd.as_str(), e.name.as_str())));
            extend(&mut v, words(") ]"));
            let ce = camel_case(e.name.as_str());
            extend(&mut v, one_word(cat(camel_domain.as_str(), ce.as_str())));
            extend(&mut v, words("("));
            extend(&mut v, one_word(snake_domain.clone()));
            extend(&mut v, words("::"));
            extend(&mut v, one_word(cat(ce.as_str(), "Event")));
            extend(&mut v, words(") ,"));
            extend(&mut dv, v);
            j = j + 1;
        }
        extend(&mut variants, dv);
        i = i + 1;
    }
    let mut out = words(EVENT_HEAD);
    extend(&mut out, variants);
    extend(&mut out, words(EVENT_TAIL));
    out
}

impl Protocol {
    /// The whole program for this protocol, in its context `cx`.
    pub fn render(&self, cx: &Context) -> (r: Vec<Token>)
        requires
            protocol_definable(*self),
        ensures
            tv(r@) == protocol_of(cx@, *self),
    {
        let mut out = words("mod g {");
        extend(&mut out, render_common());
        extend(&mut out, self.version.render());
        let lc = cx.with_none();
        extend(&mut out, render_domains(&lc, &self.domains));
        extend(&mut out, render_event(self));
        extend(&mut out, words("} pub use g :: * ;"));
        out
    }
}

/// Generates the Rust model of a protocol.
pub fn render(protocol: &Protocol) -> (r: Vec<Token>)
    requires
        protocol_definable(*protocol),
    ensures
        tv(r@) == render_of(*protocol),
{
    let experimentals = find_experimental_types(protocol);
    assert(experimentals@ =~= experimental_set(*protocol));
    let cx = Context::new_root(&experimentals);
    let inner = cx.with_none();
    protocol.render(&inner)
}


/// Whether every type of `p` can be defined.
pub fn is_definable(p: &Protocol) -> (r: bool)
    ensures
        r == protocol_definable(*p),
{
    let mut i: usize = 0;
    while i < p.domains.len()
        invariant
            i <= p.domains@.len(),
            forall|k: int| 0 <= k < i ==> domain_definable(#[trigger] p.domains@[k]),
        decreases p.domains@.len() - i,
    {
        let d = &p.domains[i];
        let mut j: usize = 0;
        while j < d.types.len()
            invariant
                i < p.domains@.len(),
                *d == p.domains@[i as int],
                j <= d.types@.len(),
                forall|m: int| 0 <= m < j ==> definable(#[trigger] d.types@[m].ty),
            decreases d.types@.len() - j,
        {
            match &d.types[j].ty {
                Type::String | Type::Integer | Type::Number | Type::Array(..) | Type::EnumString(..)
                | Type::Object(..) => {},
                _ => {
                    assert(!definable(d.types@[j as int].ty));
                    assert(!domain_definable(p.domains@[i as int]));
                    return false;
                },
            }
            j = j + 1;
        }
        assert(domain_definable(p.domains@[i as int]));
        i = i + 1;
    }
    true
}

/// The source text of the program generated for `p`, as proc_macro2 prints
/// its token stream (`None` only where proc_macro2 cannot lex the tokens'
/// source text).
pub fn program_text(p: &Protocol) -> (r: Option<String>)
    requires
        protocol_definable(*p),
    ensures
        opt_view(r) == token_stream_text_of(print_of(render_of(*p))),
{
    let toks = render(p);
    let text = print_tokens(&toks);
    token_stream_text(text.as_str())
}


/// Something that generates code in a context it enters first.
pub trait Rendarable {
    /// Whether this item can be rendered.
    spec fn can_render(&self) -> bool;

    /// What this item generates when rendered from context `cx`.
    spec fn rendered_in(&self, cx: CxView) -> Seq<Tok>;

    /// Enters this item's context from `cx` and renders it there.
    fn render_with(&self, cx: &Context) -> (r: Vec<Token>)
        requires
            self.can_render(),
        ensures
            tv(r@) == self.rendered_in(cx@),
    ;
}

impl Rendarable for DomainType {
    open spec fn can_render(&self) -> bool {
        definable(self.ty)
    }

    open spec fn rendered_in(&self, cx: CxView) -> Seq<Tok> {
        domain_type_of(cx, *self)
    }

    fn render_with(&self, cx: &Context) -> (r: Vec<Token>) {
        reveal(domain_type_of);
        let c = self.enter(cx);
        self.render(&c)
    }
}

impl Rendarable for Command {
    open spec fn can_render(&self) -> bool {
        true
    }

    open spec fn rendered_in(&self, cx: CxView) -> Seq<Tok> {
        command_of(cx.with_none(), *self)
    }

    fn render_with(&self, cx: &Context) -> (r: Vec<Token>) {
        let c = cx.with_none();
        self.render(&c)
    }
}

impl Rendarable for Event {
    open spec fn can_render(&self) -> bool {
        true
    }

    open spec fn rendered_in(&self, cx: CxView) -> Seq<Tok> {
        event_of(cx, *self)
    }

    fn render_with(&self, cx: &Context) -> (r: Vec<Token>) {
        self.render_in(cx)
    }
}

impl Rendarable for Domain {
    open spec fn can_render(&self) -> bool {
        domain_definable(*self)
    }

    open spec fn rendered_in(&self, cx: CxView) -> Seq<Tok> {
        domain_of(cx, *self)
    }

    fn render_with(&self, cx: &Context) -> (r: Vec<Token>) {
        self.render_in(cx)
    }
}

impl Rendarable for ProtocolVersion {
    open spec fn can_render(&self) -> bool {
        true
    }

    open spec fn rendered_in(&self, cx: CxView) -> Seq<Tok> {
        version_of(*self)
    }

    fn render_with(&self, cx: &Context) -> (r: Vec<Token>) {
        self.render()
    }
}

impl Rendarable for Protocol {
    open spec fn can_render(&self) -> bool {
        protocol_definable(*self)
    }

    open spec fn rendered_in(&self, cx: CxView) -> Seq<Tok> {
        protocol_of(cx.with_none(), *self)
    }

    fn render_with(&self, cx: &Context) -> (r: Vec<Token>) {
        let c = cx.with_none();
        self.render(&c)
    }
}

impl<'a> Context<'a> {
    /// Renders `item` from this context.
    pub fn render_with<R: Rendarable>(&self, item: &R) -> (r: Vec<Token>)
        requires
            item.can_render(),
        ensures
            tv(r@) == item.rendered_in(self@),
    {
        item.render_with(self)
    }
}

/// Whether `s` holds no dot.
pub open spec fn no_dot(s: Seq<char>) -> bool {
    forall|k: int| 0 <= k < s.len() ==> s[k] != '.'
}

proof fn lemma_dotted_pieces(d: Seq<char>, t: Seq<char>)
    requires
        no_dot(d),
    ensures
        first_piece(d + seq!['.'] + t) == d,
        after_dot(d + seq!['.'] + t) == Some(t),
    decreases d.len(),
{
    let r = d + seq!['.'] + t;
    if d.len() == 0 {
        assert(r[0] == '.');
        assert(r.drop_first() =~= t);
    } else {
        assert(r[0] == d[0]);
        assert(r.drop_first() =~= d.drop_first() + seq!['.'] + t);
        lemma_dotted_pieces(d.drop_first(), t);
        assert(seq![d[0]] + d.drop_first() =~= d);
    }
}

proof fn lemma_first_piece_whole(t: Seq<char>)
    requires
        no_dot(t),
    ensures
        first_piece(t) == t,
    decreases t.len(),
{
    if t.len() > 0 {
        lemma_first_piece_whole(t.drop_first());
        assert(seq![t[0]] + t.drop_first() =~= t);
    }
}

proof fn lemma_plain_word(s: Seq<char>, cur: Seq<char>)
    requires
        forall|k: int| 0 <= k < s.len() ==> !is_sep(#[trigger] s[k]) && s[k] != '"',
    ensures
        words_from(s, cur, false) == flush(cur + s),
    decreases s.len(),
{
    if s.len() == 0 {
        assert(cur + s =~= cur);
    } else {
        assert(!is_sep(s[0]) && s[0] != '"');
        lemma_plain_word(s.drop_first(), cur.push(s[0]));
        assert(cur.push(s[0]) + s.drop_first() =~= cur + s);
    }
}

proof fn lemma_json_value_one_token()
    ensures
        tmpl("JsonValue"@).len() == 1,
{
    reveal_strlit("JsonValue");
    let s = "JsonValue"@;
    assert forall|k: int| 0 <= k < s.len() implies !is_sep(#[trigger] s[k]) && s[k] != '"' by {}
    lemma_plain_word(s, seq![]);
    assert(seq![] + s =~= s);
}

/// A reference to a type of a named domain (`D.T`) renders the same in
/// every context with the same experimental types, whatever the context's
/// own domain; it renders as `JsonValue` (borrowed, in a getter) exactly
/// where `T` is experimental in `D`.
pub proof fn law_dotted_reference_ignores_context_domain(
    cx1: CxView,
    cx2: CxView,
    d: Seq<char>,
    t: Seq<char>,
    r: String,
)
    requires
        r@ == d + seq!['.'] + t,
        no_dot(d),
        no_dot(t),
        cx1.experimentals == cx2.experimentals,
    ensures
        ty_of(cx1, Type::Ref(r)) == ty_of(cx2, Type::Ref(r)),
        tyref_of(cx1, Type::Ref(r)) == tyref_of(cx2, Type::Ref(r)),
        (ty_of(cx1, Type::Ref(r)) == ty_of(cx1, Type::Any)) <==> cx1.experimentals.contains((d, t)),
        (tyref_of(cx1, Type::Ref(r)) == tmpl("&"@) + ty_of(cx1, Type::Any)) <==> cx1.experimentals.contains(
            (d, t),
        ),
{
    lemma_dotted_pieces(d, t);
    lemma_first_piece_whole(t);
    lemma_json_value_one_token();
    if !cx1.experimentals.contains((d, t)) {
        let named = word(snake_case_of(d)) + tmpl("::"@) + word(camel_case_of(t));
        assert(ty_of(cx1, Type::Ref(r)) =~= seq![] + named);
        assert(ty_of(cx1, Type::Ref(r)).len() >= 2);
        assert(tyref_of(cx1, Type::Ref(r)) =~= tmpl("&"@) + named);
        assert((tmpl("&"@) + ty_of(cx1, Type::Any)).len() < tyref_of(cx1, Type::Ref(r)).len());
    } else {
        assert(ty_of(cx1, Type::Ref(r)) =~= seq![] + tmpl("JsonValue"@));
    }
}

proof fn lemma_no_dot_after(t: Seq<char>)
    requires
        no_dot(t),
    ensures
        after_dot(t) is None,
    decreases t.len(),
{
    if t.len() > 0 {
        lemma_no_dot_after(t.drop_first());
    }
}

/// A reference to a type without a domain (`T`) means a type of the
/// context's own domain: it renders as `JsonValue` where `T` is experimental
/// in that domain, and as the type's own name otherwise.
pub proof fn law_plain_reference_uses_context_domain(cx: CxView, r: String)
    requires
        no_dot(r@),
    ensures
        cx.experimentals.contains((cx.domain(), r@)) ==> ty_of(cx, Type::Ref(r)) == ty_of(cx, Type::Any),
        cx.experimentals.contains((cx.domain(), r@)) ==> tyref_of(cx, Type::Ref(r)) == tmpl("&"@) + ty_of(
            cx,
            Type::Any,
        ),
        !cx.experimentals.contains((cx.domain(), r@)) ==> ty_of(cx, Type::Ref(r)) == word(camel_case_of(r@)),
        !cx.experimentals.contains((cx.domain(), r@)) ==> tyref_of(cx, Type::Ref(r)) == tmpl("&"@) + word(
            camel_case_of(r@),
        ),
{
    lemma_no_dot_after(r@);
    lemma_first_piece_whole(r@);
    assert(seq![] + tmpl("JsonValue"@) =~= tmpl("JsonValue"@));
    assert(seq![] + word(camel_case_of(r@)) =~= word(camel_case_of(r@)));
}

/// Whether `a` begins `x`.
pub open spec fn begins(a: Seq<Tok>, x: Seq<Tok>) -> bool {
    a.len() <= x.len() && x.subrange(0, a.len() as int) == a
}

broadcast proof fn lemma_begins_extend(a: Seq<Tok>, x: Seq<Tok>, y: Seq<Tok>)
    ensures
        begins(a, x) ==> #[trigger] begins(a, x + y),
{
    if begins(a, x) {
        assert((x + y).subrange(0, a.len() as int) =~= x.subrange(0, a.len() as int));
    }
}

proof fn lemma_begins_self(a: Seq<Tok>)
    ensures
        begins(a, a),
{
    assert(a.subrange(0, a.len() as int) =~= a);
}

/// The definitions that the fields `fs` need, field by field in order: each
/// field's nested enums and objects, named in the field's own context.
pub open spec fn field_definitions(cx: CxView, fs: Seq<Property>) -> Seq<Tok>
    decreases fs.len(),
{
    if fs.len() == 0 {
        seq![]
    } else {
        field_definitions(cx, fs.drop_last()) + nested_render_of(field_cx(cx, fs.last()), fs.last().ty)
    }
}

proof fn lemma_nested_parts(cx: CxView, fs: Seq<Property>, n: int)
    requires
        0 <= n <= fs.len(),
    ensures
        parts_of(Part::NestedTy, cx, fs, n) == field_definitions(cx, fs.take(n)),
    decreases n,
{
    if n > 0 {
        lemma_nested_parts(cx, fs, n - 1);
        assert(fs.take(n).drop_last() =~= fs.take(n - 1));
        assert(fs.take(n).last() == fs[n - 1]);
        assert(parts_of(Part::NestedTy, cx, fs, n) == parts_of(Part::NestedTy, cx, fs, n - 1) + part_of(
            Part::NestedTy, cx, fs[n - 1]));
        assert(part_of(Part::NestedTy, cx, fs[n - 1]) == nested_render_of(field_cx(cx, fs[n - 1]), fs[n - 1].ty));
        assert(field_definitions(cx, fs.take(n)) == field_definitions(cx, fs.take(n).drop_last())
            + nested_render_of(field_cx(cx, fs.take(n).last()), fs.take(n).last().ty));
    } else {
        assert(fs.take(0).len() == 0);
    }
}

/// The struct generated for fields begins with the definitions all its
/// fields need, so that every type it names is defined, whatever the number
/// of fields.
#[verifier::rlimit(50)]
pub proof fn law_struct_begins_with_field_definitions(cx: CxView, a: Annotation, fs: Seq<Property>)
    requires
        fs.len() > 0,
    ensures
        begins(field_definitions(cx, fs), render_struct_of(cx, a, fs)),
{
    broadcast use lemma_begins_extend;
    let defs = field_definitions(cx, fs);
    lemma_begins_self(defs);
    if fs.len() == 1 {
        assert(fs.drop_last().len() == 0);
        assert(field_definitions(cx, fs.drop_last()) == Seq::<Tok>::empty());
        assert(fs.last() == fs[0]);
        assert(defs =~= nested_render_of(field_cx(cx, fs[0]), fs[0].ty));
    } else {
        lemma_nested_parts(cx, fs, fs.len() as int);
        assert(fs.take(fs.len() as int) =~= fs);
    }
}

proof fn lemma_variant_in_domain(d: Domain, n: int, j: int) -> (k: int)
    requires
        0 <= j < n <= d.events@.len(),
    ensures
        0 <= k,
        k + event_variant_of(d, d.events@[j]).len() <= domain_event_variants_of(d, n).len(),
        domain_event_variants_of(d, n).subrange(k, k + event_variant_of(d, d.events@[j]).len())
            == event_variant_of(d, d.events@[j]),
    decreases n,
{
    let v = event_variant_of(d, d.events@[j]);
    let all = domain_event_variants_of(d, n);
    let prev = domain_event_variants_of(d, n - 1);
    assert(all == prev + event_variant_of(d, d.events@[n - 1]));
    if j == n - 1 {
        assert(all.subrange(prev.len() as int, (prev.len() + v.len()) as int) =~= v);
        prev.len() as int
    } else {
        let k = lemma_variant_in_domain(d, n - 1, j);
        assert(all.subrange(k, k + v.len()) =~= prev.subrange(k, k + v.len()));
        k
    }
}

proof fn lemma_variant_in_all(ds: Seq<Domain>, n: int, i: int, j: int) -> (k: int)
    requires
        0 <= i < n <= ds.len(),
        0 <= j < ds[i].events@.len(),
    ensures
        0 <= k,
        k + event_variant_of(ds[i], ds[i].events@[j]).len() <= event_variants_of(ds, n).len(),
        event_variants_of(ds, n).subrange(k, k + event_variant_of(ds[i], ds[i].events@[j]).len())
            == event_variant_of(ds[i], ds[i].events@[j]),
    decreases n,
{
    let v = event_variant_of(ds[i], ds[i].events@[j]);
    let all = event_variants_of(ds, n);
    let prev = event_variants_of(ds, n - 1);
    let here = domain_event_variants_of(ds[n - 1], ds[n - 1].events@.len() as int);
    assert(all == prev + here);
    if i == n - 1 {
        let k0 = lemma_variant_in_domain(ds[i], ds[i].events@.len() as int, j);
        assert(all.subrange(prev.len() + k0, prev.len() + k0 + v.len()) =~= here.subrange(k0, k0 + v.len()));
        prev.len() + k0
    } else {
        let k = lemma_variant_in_all(ds, n - 1, i, j);
        assert(all.subrange(k, k + v.len()) =~= prev.subrange(k, k + v.len()));
        k
    }
}

/// Whether `a` ends `x`.
pub open spec fn ends(a: Seq<Tok>, x: Seq<Tok>) -> bool {
    a.len() <= x.len() && x.subrange(x.len() - a.len(), x.len() as int) == a
}

/// The attributes before the `serde` name of the variant for event `e` of
/// domain `d`: the domain's, then the event's own.
pub open spec fn variant_attributes(d: Domain, e: Event) -> Seq<Tok> {
    meta_of(d.annotation, Some(domain_deps(d))) + meta_of(e.annotation, None) + tmpl(
        "# [ serde ( rename ="@) + lit(d.domain@ + "."@ + e.name@)
}

proof fn lemma_own_attributes(a: Annotation)
    ensures
        a.experimental ==> ends(tmpl(
            "# [ cfg ( feature = \"experimental\" ) ] # [ cfg_attr ( docsrs , doc ( cfg ( feature = \"experimental\" ) ) ) ]"@),
            meta_of(a, None)),
        a.deprecated ==> begins(tmpl("# [ deprecated ]"@), meta_of(a, None)),
{
    let m = meta_of(a, None);
    if a.deprecated {
        let dep = tmpl("# [ deprecated ]"@);
        assert(m.subrange(0, dep.len() as int) =~= dep);
    }
    if a.experimental {
        let c = meta_for_trait_impl_of(a, None);
        assert(m.subrange(m.len() - c.len(), m.len() as int) =~= c);
    }
}

/// The `Event` enum names every event of the protocol with the domain's
/// attributes followed by the event's own: an experimental event's variant
/// is gated on the `experimental` feature, and a deprecated one is marked
/// deprecated.
#[verifier::rlimit(50)]
pub proof fn law_event_variant_carries_its_attributes(p: Protocol, i: int, j: int)
    requires
        0 <= i < p.domains@.len(),
        0 <= j < p.domains@[i].events@.len(),
    ensures
        ({
            let d = p.domains@[i];
            let e = d.events@[j];
            let x = variant_attributes(d, e);
            let out = render_event_of(p);
            &&& exists|k: int| 0 <= k && k + x.len() <= out.len() && #[trigger] out.subrange(k, k + x.len()) == x
            &&& e.annotation.experimental ==> ends(tmpl(
                "# [ cfg ( feature = \"experimental\" ) ] # [ cfg_attr ( docsrs , doc ( cfg ( feature = \"experimental\" ) ) ) ]"@),
                meta_of(e.annotation, None))
            &&& e.annotation.deprecated ==> begins(tmpl("# [ deprecated ]"@), meta_of(e.annotation, None))
        }),
{
    let d = p.domains@[i];
    let e = d.events@[j];
    let x = variant_attributes(d, e);
    let v = event_variant_of(d, e);
    let out = render_event_of(p);
    let ds = p.domains@;
    let k0 = lemma_variant_in_all(ds, ds.len() as int, i, j);
    let all = event_variants_of(ds, ds.len() as int);
    let head = tmpl(EVENT_HEAD@);
    let dl: int = doc_of(e.annotation).len() as int;
    assert(v.subrange(dl, dl + x.len()) =~= x);
    let k = head.len() + k0 + dl;
    assert(out.subrange(k, k + x.len()) =~= all.subrange(k0 + dl, k0 + dl + x.len()));
    assert(all.subrange(k0 + dl, k0 + dl + x.len()) =~= v.subrange(dl, dl + x.len()));
    lemma_own_attributes(e.annotation);
}

} // verus!
