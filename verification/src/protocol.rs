//! The model of a Chrome DevTools Protocol description (`protocol.json`):
//! domains with their types, commands and events.

use vstd::prelude::*;
use crate::text::{camel_case, camel_case_of, cat, str_eq, strs};

verus! {

/// Documentation and stability flags of a protocol item.
pub struct Annotation {
    pub description: Option<String>,
    pub experimental: bool,
    pub deprecated: bool,
}

impl Default for Annotation {
    fn default() -> (r: Self)
        ensures
            r.description is None,
            !r.experimental,
            !r.deprecated,
    {
        Annotation { description: None, experimental: false, deprecated: false }
    }
}

/// The type of a protocol value.
pub enum Type {
    String,
    Integer,
    Number,
    Boolean,
    Binary,
    Any,
    EnumString(Vec<String>),
    Object(Vec<Property>),
    Array(Box<Type>),
    Ref(String),
    Option(Box<Type>),
}

/// A named, typed member: an object property, a command parameter or
/// return value, or an event parameter.
pub struct Property {
    pub name: String,
    pub annotation: Annotation,
    pub ty: Type,
}

/// A parameter of a command or an event.
pub type Parameter = Property;

/// A return value of a command.
pub type Return = Property;

/// A type declared by a domain.
pub struct DomainType {
    pub id: String,
    pub annotation: Annotation,
    pub ty: Type,
}

/// A command of a domain.
pub struct Command {
    pub name: String,
    pub redirect: Option<String>,
    pub annotation: Annotation,
    pub parameters: Vec<Parameter>,
    pub returns: Vec<Return>,
}

/// An event of a domain.
pub struct Event {
    pub name: String,
    pub annotation: Annotation,
    pub parameters: Vec<Parameter>,
}

/// A protocol domain.
pub struct Domain {
    pub domain: String,
    pub annotation: Annotation,
    pub dependencies: Vec<String>,
    pub types: Vec<DomainType>,
    pub commands: Vec<Command>,
    pub events: Vec<Event>,
}

/// The protocol version.
pub struct ProtocolVersion {
    pub major: String,
    pub minor: String,
}

/// A whole protocol description.
pub struct Protocol {
    pub domains: Vec<Domain>,
    pub version: ProtocolVersion,
}

/// A type as the protocol description writes it, before its shape is checked.
pub struct RawType {
    pub ty: Option<String>,
    pub reference: Option<String>,
    pub enumeration: Option<Vec<String>>,
    pub properties: Option<Vec<Property>>,
    pub items: Option<Type>,
    pub optional: Option<bool>,
}

/// Whether `s` is present and holds `lit`.
pub open spec fn is_str(s: Option<String>, lit: Seq<char>) -> bool {
    s matches Some(v) && v@ == lit
}

/// Whether `t` is the type that a raw description with these fields
/// denotes when it is not optional.
pub open spec fn base_denotes(
    ty: Option<String>,
    reference: Option<String>,
    enumeration: Option<Vec<String>>,
    properties: Option<Vec<Property>>,
    items: Option<Type>,
    t: Type,
) -> bool {
    if ty is None && reference is Some && enumeration is None && properties is None && items is None {
        t == Type::Ref(reference->0)
    } else if is_str(ty, "string"@) && reference is None && enumeration is Some && properties is None
        && items is None {
        t == Type::EnumString(enumeration->0)
    } else if reference is None && enumeration is None && properties is None && items is None {
        if is_str(ty, "string"@) {
            t == Type::String
        } else if is_str(ty, "integer"@) {
            t == Type::Integer
        } else if is_str(ty, "number"@) {
            t == Type::Number
        } else if is_str(ty, "boolean"@) {
            t == Type::Boolean
        } else if is_str(ty, "binary"@) {
            t == Type::Binary
        } else if is_str(ty, "any"@) {
            t == Type::Any
        } else if is_str(ty, "object"@) {
            t matches Type::Object(v) && v@.len() == 0
        } else {
            false
        }
    } else if is_str(ty, "object"@) && reference is None && enumeration is None && items is None {
        t == Type::Object(properties->0)
    } else if is_str(ty, "array"@) && reference is None && enumeration is None && properties is None
        && items is Some {
        t == Type::Array(Box::new(items->0))
    } else {
        false
    }
}

/// Whether the fields of a raw description form one of the accepted shapes.
pub open spec fn raw_shape_ok(raw: RawType) -> bool {
    ||| raw.ty is None && raw.reference is Some && raw.enumeration is None && raw.properties is None
        && raw.items is None
    ||| is_str(raw.ty, "string"@) && raw.reference is None && raw.properties is None
        && raw.items is None
    ||| raw.reference is None && raw.enumeration is None && raw.items is None && (
        is_str(raw.ty, "object"@) || (raw.properties is None && (is_str(raw.ty, "integer"@)
            || is_str(raw.ty, "number"@) || is_str(raw.ty, "boolean"@) || is_str(raw.ty, "binary"@)
            || is_str(raw.ty, "any"@))))
    ||| is_str(raw.ty, "array"@) && raw.reference is None && raw.enumeration is None
        && raw.properties is None && raw.items is Some
}

/// Whether `t` is the type that `raw` denotes: the base type, wrapped in
/// `Option` when the description marks it optional.
pub open spec fn denotes(raw: RawType, t: Type) -> bool {
    if raw.optional == Some(true) {
        t matches Type::Option(b) && base_denotes(
            raw.ty,
            raw.reference,
            raw.enumeration,
            raw.properties,
            raw.items,
            *b,
        )
    } else {
        base_denotes(raw.ty, raw.reference, raw.enumeration, raw.properties, raw.items, t)
    }
}

fn opt_is(s: &Option<String>, lit: &str) -> (r: bool)
    ensures
        r == is_str(*s, lit@),
{
    match s {
        Some(v) => str_eq(v.as_str(), lit),
        None => false,
    }
}

impl Type {
    /// Checks the shape of a raw type description and builds the type it
    /// denotes; a description of no accepted shape is handed back.
    pub fn try_from(raw: RawType) -> (r: Result<Type, RawType>)
        ensures
            r is Ok <==> raw_shape_ok(raw),
            r matches Ok(t) ==> denotes(raw, t),
            r matches Err(back) ==> back == raw,
    {
        let is_string = opt_is(&raw.ty, "string");
        let is_object = opt_is(&raw.ty, "object");
        let is_array = opt_is(&raw.ty, "array");
        let plain = raw.reference.is_none() && raw.enumeration.is_none() && raw.properties.is_none()
            && raw.items.is_none();
        let optional = match raw.optional {
            Some(b) => b,
            None => false,
        };
        let ghost g = raw;
        let base = if raw.ty.is_none() && raw.reference.is_some() && raw.enumeration.is_none()
            && raw.properties.is_none() && raw.items.is_none() {
            match raw.reference {
                Some(r) => Type::Ref(r),
                None => { return Err(raw); },
            }
        } else if is_string && raw.reference.is_none() && raw.enumeration.is_some()
            && raw.properties.is_none() && raw.items.is_none() {
            match raw.enumeration {
                Some(v) => Type::EnumString(v),
                None => { return Err(raw); },
            }
        } else if plain && is_string {
            Type::String
        } else if plain && opt_is(&raw.ty, "integer") {
            Type::Integer
        } else if plain && opt_is(&raw.ty, "number") {
            Type::Number
        } else if plain && opt_is(&raw.ty, "boolean") {
            Type::Boolean
        } else if plain && opt_is(&raw.ty, "binary") {
            Type::Binary
        } else if plain && opt_is(&raw.ty, "any") {
            Type::Any
        } else if is_object && raw.reference.is_none() && raw.enumeration.is_none()
            && raw.items.is_none() {
            match raw.properties {
                Some(v) => Type::Object(v),
                None => Type::Object(Vec::new()),
            }
        } else if is_array && raw.reference.is_none() && raw.enumeration.is_none()
            && raw.properties.is_none() && raw.items.is_some() {
            match raw.items {
                Some(t) => Type::Array(Box::new(t)),
                None => { return Err(raw); },
            }
        } else {
            return Err(raw);
        };
        assert(base_denotes(g.ty, g.reference, g.enumeration, g.properties, g.items, base));
        if optional {
            Ok(Type::Option(Box::new(base)))
        } else {
            Ok(base)
        }
    }
}


/// Marking a description optional wraps the type it denotes exactly once:
/// with `optional` true it denotes `Option` of what the same description
/// denotes without the mark, and `optional` false is the same as no mark.
/// The mark never changes whether the shape is accepted.
pub proof fn law_optional_wraps_once(raw: RawType, t: Type)
    ensures
        ({
            let marked = RawType { optional: Some(true), ..raw };
            let unmarked = RawType { optional: None, ..raw };
            let off = RawType { optional: Some(false), ..raw };
            &&& denotes(marked, t) <==> (t matches Type::Option(b) && denotes(unmarked, *b))
            &&& denotes(off, t) <==> denotes(unmarked, t)
            &&& raw_shape_ok(marked) == raw_shape_ok(unmarked)
            &&& raw_shape_ok(off) == raw_shape_ok(unmarked)
        }),
{
}

/// An object description that lists its properties converts to an object
/// holding exactly those properties, in their order: none is dropped,
/// added or reordered.
pub proof fn law_object_keeps_its_properties(raw: RawType, ps: Vec<Property>, t: Type)
    requires
        is_str(raw.ty, "object"@),
        raw.reference is None,
        raw.enumeration is None,
        raw.items is None,
        raw.properties == Some(ps),
        raw.optional != Some(true),
    ensures
        denotes(raw, t) <==> t == Type::Object(ps),
        raw_shape_ok(raw),
{
}

/// Whether a field of type `t` is stored boxed: references to other types,
/// possibly optional.
pub open spec fn need_box_of(t: Type) -> bool
    decreases t,
{
    match t {
        Type::Ref(..) => true,
        Type::Option(inner) => need_box_of(*inner),
        _ => false,
    }
}

impl Type {
    /// Whether a field of this type is stored boxed.
    pub fn need_box(&self) -> (r: bool)
        ensures
            r == need_box_of(*self),
        decreases self,
    {
        match self {
            Type::Ref(..) => true,
            Type::Option(inner) => inner.need_box(),
            _ => false,
        }
    }
}

/// The features a domain's items depend on: the domain itself, then its
/// dependencies.
pub open spec fn domain_deps(d: Domain) -> Seq<Seq<char>> {
    seq![d.domain@] + strs(d.dependencies@)
}

impl Domain {
    /// The features this domain's items depend on.
    pub fn deps(&self) -> (r: Vec<String>)
        ensures
            strs(r@) == domain_deps(*self),
    {
        let mut out: Vec<String> = Vec::new();
        out.push(self.domain.clone());
        let mut i: usize = 0;
        while i < self.dependencies.len()
            invariant
                i <= self.dependencies@.len(),
                strs(out@) =~= seq![self.domain@] + strs(self.dependencies@).take(i as int),
            decreases self.dependencies@.len() - i,
        {
            let ghost before = out@;
            out.push(self.dependencies[i].clone());
            assert(strs(out@) =~= strs(before).push(self.dependencies@[i as int]@));
            assert(strs(self.dependencies@).take(i + 1) =~= strs(self.dependencies@).take(i as int).push(
                self.dependencies@[i as int]@));
            i = i + 1;
        }
        assert(strs(self.dependencies@).take(i as int) =~= strs(self.dependencies@));
        out
    }

    /// Whether the whole domain is experimental. The condition asks for types
    /// that are there and are not there at once, so it never holds.
    pub fn experimental(&self) -> (r: bool)
        ensures
            !r,
    {
        let nonempty = !self.types.is_empty();
        let mut all = nonempty && self.commands.is_empty() && self.types.is_empty();
        assert(!all);
        let mut i: usize = 0;
        while all && i < self.types.len()
            invariant
                i <= self.types@.len(),
                !all,
            decreases self.types@.len() - i,
        {
            all = self.types[i].annotation.experimental;
            i = i + 1;
        }
        let mut i: usize = 0;
        while all && i < self.commands.len()
            invariant
                i <= self.commands@.len(),
                !all,
            decreases self.commands@.len() - i,
        {
            all = self.commands[i].annotation.experimental;
            i = i + 1;
        }
        let mut i: usize = 0;
        while all && i < self.events.len()
            invariant
                i <= self.events@.len(),
                !all,
            decreases self.events@.len() - i,
        {
            all = self.events[i].annotation.experimental;
            i = i + 1;
        }
        all
    }
}

impl Command {
    /// Name of the type that carries the command's parameters.
    pub fn pname(&self) -> (r: String)
        ensures
            r@ == camel_case_of(self.name@) + "Command"@,
    {
        let c = camel_case(self.name.as_str());
        cat(c.as_str(), "Command")
    }

    /// Name of the type that carries the command's return values.
    pub fn rname(&self) -> (r: String)
        ensures
            r@ == camel_case_of(self.name@) + "Return"@,
    {
        let c = camel_case(self.name.as_str());
        cat(c.as_str(), "Return")
    }
}

/// Whether a pair holds the domain `d` and the type id `t`.
pub open spec fn pair_matches(q: (String, String), d: Seq<char>, t: Seq<char>) -> bool {
    q.0@ == d && q.1@ == t
}

/// Whether a list of pairs holds (`d`, `t`).
pub open spec fn has_pair(v: Seq<(String, String)>, d: Seq<char>, t: Seq<char>) -> bool {
    exists|k: int| 0 <= k < v.len() && #[trigger] pair_matches(v[k], d, t)
}

/// The set of (domain, type id) pairs held by a list of pairs.
pub open spec fn pair_set(v: Seq<(String, String)>) -> Set<(Seq<char>, Seq<char>)> {
    Set::new(|q: (Seq<char>, Seq<char>)| has_pair(v, q.0, q.1))
}

/// The types of a protocol that are marked experimental, by domain name and
/// type id.
pub struct ExperimentalTypes {
    pub pairs: Vec<(String, String)>,
}

impl View for ExperimentalTypes {
    type V = Set<(Seq<char>, Seq<char>)>;

    open spec fn view(&self) -> Set<(Seq<char>, Seq<char>)> {
        pair_set(self.pairs@)
    }
}

impl Default for ExperimentalTypes {
    fn default() -> (r: Self)
        ensures
            r@ == Set::<(Seq<char>, Seq<char>)>::empty(),
    {
        let r = ExperimentalTypes { pairs: Vec::new() };
        assert(r@ =~= Set::<(Seq<char>, Seq<char>)>::empty());
        r
    }
}

impl ExperimentalTypes {
    /// Whether type `id` of domain `domain` is experimental.
    pub fn contains(&self, domain: &str, id: &str) -> (r: bool)
        ensures
            r == self@.contains((domain@, id@)),
    {
        let mut i: usize = 0;
        while i < self.pairs.len()
            invariant
                i <= self.pairs@.len(),
                forall|k: int| 0 <= k < i ==> !#[trigger] pair_matches(self.pairs@[k], domain@, id@),
            decreases self.pairs@.len() - i,
        {
            if str_eq(self.pairs[i].0.as_str(), domain) && str_eq(self.pairs[i].1.as_str(), id) {
                assert(pair_matches(self.pairs@[i as int], domain@, id@));
                return true;
            }
            i = i + 1;
        }
        false
    }
}

/// Whether type `j` of domain `i` of `p` is marked experimental and has the
/// domain name `d` and the id `t`.
pub open spec fn type_matches(p: Protocol, i: int, j: int, d: Seq<char>, t: Seq<char>) -> bool {
    &&& 0 <= i < p.domains@.len()
    &&& 0 <= j < p.domains@[i].types@.len()
    &&& p.domains@[i].types@[j].annotation.experimental
    &&& p.domains@[i].domain@ == d
    &&& p.domains@[i].types@[j].id@ == t
}

/// Whether type `id` of domain `domain` is declared experimental in `p`.
pub open spec fn is_experimental_type(p: Protocol, domain: Seq<char>, id: Seq<char>) -> bool {
    exists|i: int, j: int| #[trigger] type_matches(p, i, j, domain, id)
}

/// Whether position (`i`, `j`) comes before position (`i0`, `j0`).
pub open spec fn before(i: int, j: int, i0: int, j0: int) -> bool {
    i < i0 || (i == i0 && j < j0)
}

/// Whether an experimental type with these names comes before (`i0`, `j0`).
pub open spec fn experimental_before(p: Protocol, i0: int, j0: int, domain: Seq<char>, id: Seq<char>) -> bool {
    exists|i: int, j: int| #[trigger] type_matches(p, i, j, domain, id) && before(i, j, i0, j0)
}

/// Collects the types of a protocol that are marked experimental.
pub fn find_experimental_types(protocol: &Protocol) -> (r: ExperimentalTypes)
    ensures
        forall|d: Seq<char>, t: Seq<char>| r@.contains((d, t)) <==> is_experimental_type(*protocol, d, t),
{
    let mut pairs: Vec<(String, String)> = Vec::new();
    let mut i: usize = 0;
    while i < protocol.domains.len()
        invariant
            i <= protocol.domains@.len(),
            forall|d: Seq<char>, t: Seq<char>|
                has_pair(pairs@, d, t) <==> experimental_before(*protocol, i as int, 0, d, t),
        decreases protocol.domains@.len() - i,
    {
        let dom = &protocol.domains[i];
        let mut j: usize = 0;
        while j < dom.types.len()
            invariant
                i < protocol.domains@.len(),
                *dom == protocol.domains@[i as int],
                j <= dom.types@.len(),
                forall|d: Seq<char>, t: Seq<char>|
                    has_pair(pairs@, d, t) <==> experimental_before(*protocol, i as int, j as int, d, t),
            decreases dom.types@.len() - j,
        {
            let ghost old_pairs = pairs@;
            let exp = dom.types[j].annotation.experimental;
            if exp {
                pairs.push((dom.domain.clone(), dom.types[j].id.clone()));
            }
            assert forall|d: Seq<char>, t: Seq<char>|
                has_pair(pairs@, d, t) <==> experimental_before(*protocol, i as int, j + 1, d, t)
            by {
                if has_pair(pairs@, d, t) {
                    let k = choose|k: int| 0 <= k < pairs@.len() && #[trigger] pair_matches(pairs@[k], d, t);
                    if k < old_pairs.len() {
                        assert(pair_matches(old_pairs[k], d, t));
                        assert(has_pair(old_pairs, d, t));
                        let (a, b) = choose|a: int, b: int| #[trigger] type_matches(*protocol, a, b, d, t) && before(a, b, i as int, j as int);
                        assert(type_matches(*protocol, a, b, d, t) && before(a, b, i as int, j + 1));
                    } else {
                        assert(type_matches(*protocol, i as int, j as int, d, t) && before(i as int, j as int, i as int, j + 1));
                    }
                }
                if experimental_before(*protocol, i as int, j + 1, d, t) {
                    let (a, b) = choose|a: int, b: int| #[trigger] type_matches(*protocol, a, b, d, t) && before(a, b, i as int, j + 1);
                    if before(a, b, i as int, j as int) {
                        assert(type_matches(*protocol, a, b, d, t) && before(a, b, i as int, j as int));
                        assert(experimental_before(*protocol, i as int, j as int, d, t));
                        assert(has_pair(old_pairs, d, t));
                        let k = choose|k: int| 0 <= k < old_pairs.len() && #[trigger] pair_matches(old_pairs[k], d, t);
                        assert(pairs@[k] == old_pairs[k]);
                        assert(pair_matches(pairs@[k], d, t));
                    } else {
                        assert(a == i && b == j);
                        let k = old_pairs.len() as int;
                        assert(pair_matches(pairs@[k], d, t));
                    }
                }
            }
            j = j + 1;
        }
        assert forall|d: Seq<char>, t: Seq<char>|
            experimental_before(*protocol, i as int, j as int, d, t) <==> experimental_before(*protocol, i + 1, 0, d, t)
        by {
            if experimental_before(*protocol, i + 1, 0, d, t) {
                let (a, b) = choose|a: int, b: int| #[trigger] type_matches(*protocol, a, b, d, t) && before(a, b, i + 1, 0);
                assert(type_matches(*protocol, a, b, d, t) && before(a, b, i as int, j as int));
            }
            if experimental_before(*protocol, i as int, j as int, d, t) {
                let (a, b) = choose|a: int, b: int| #[trigger] type_matches(*protocol, a, b, d, t) && before(a, b, i as int, j as int);
                assert(type_matches(*protocol, a, b, d, t) && before(a, b, i + 1, 0));
            }
        }
        i = i + 1;
    }
    assert forall|d: Seq<char>, t: Seq<char>|
        experimental_before(*protocol, i as int, 0, d, t) <==> is_experimental_type(*protocol, d, t)
    by {
        if is_experimental_type(*protocol, d, t) {
            let (a, b) = choose|a: int, b: int| #[trigger] type_matches(*protocol, a, b, d, t);
            assert(type_matches(*protocol, a, b, d, t) && before(a, b, i as int, 0));
        }
    }
    ExperimentalTypes { pairs }
}

} // verus!
