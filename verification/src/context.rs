//! The naming context of code generation: a chain of frames, innermost
//! first, each of which may name a domain or contribute to a type name.

use vstd::prelude::*;
use crate::protocol::ExperimentalTypes;
use crate::text::cat;

verus! {

/// The model of one frame of a context.
pub struct Frame {
    pub domain: Option<Seq<char>>,
    pub name: Option<Seq<char>>,
}

/// The model of a context: the experimental types it knows of and its
/// frames, innermost first.
pub struct CxView {
    pub experimentals: Set<(Seq<char>, Seq<char>)>,
    pub frames: Seq<Frame>,
}

/// The view of an optional string.
pub open spec fn opt_view(s: Option<String>) -> Option<Seq<char>> {
    match s {
        Some(v) => Some(v@),
        None => None,
    }
}

/// The type name of a context: the names of its frames, outermost first,
/// joined.
pub open spec fn frames_type_ident(frames: Seq<Frame>) -> Seq<char>
    decreases frames.len(),
{
    if frames.len() == 0 {
        seq![]
    } else {
        frames_type_ident(frames.drop_first()) + match frames[0].name {
            Some(n) => n,
            None => seq![],
        }
    }
}

/// The domain of a context: that of its innermost frame that names one, or
/// nothing.
pub open spec fn frames_domain(frames: Seq<Frame>) -> Seq<char>
    decreases frames.len(),
{
    if frames.len() == 0 {
        seq![]
    } else {
        match frames[0].domain {
            Some(d) => d,
            None => frames_domain(frames.drop_first()),
        }
    }
}

impl CxView {
    pub open spec fn type_ident(self) -> Seq<char> {
        frames_type_ident(self.frames)
    }

    pub open spec fn domain(self) -> Seq<char> {
        frames_domain(self.frames)
    }

    /// The context with one more frame that names nothing.
    pub open spec fn with_none(self) -> CxView {
        CxView { experimentals: self.experimentals, frames: seq![Frame { domain: None, name: None }] + self.frames }
    }

    /// The context with one more frame that names the domain `d`.
    pub open spec fn with_domain(self, d: Seq<char>) -> CxView {
        CxView { experimentals: self.experimentals, frames: seq![Frame { domain: Some(d), name: None }] + self.frames }
    }

    /// The context with one more frame that contributes the name `n`.
    pub open spec fn with_name(self, n: Seq<char>) -> CxView {
        CxView { experimentals: self.experimentals, frames: seq![Frame { domain: None, name: Some(n) }] + self.frames }
    }

    /// Whether type `t` of domain `d` is experimental.
    pub open spec fn is_experimental(self, d: Seq<char>, t: Seq<char>) -> bool {
        self.experimentals.contains((d, t))
    }
}

/// A frame that names nothing changes neither the type name nor the domain.
pub proof fn law_with_none_names_nothing(cx: CxView)
    ensures
        cx.with_none().type_ident() == cx.type_ident(),
        cx.with_none().domain() == cx.domain(),
{
    let f = cx.with_none().frames;
    assert(f.drop_first() =~= cx.frames);
    assert(cx.with_none().type_ident() == cx.type_ident() + Seq::<char>::empty());
    assert(cx.type_ident() + Seq::<char>::empty() =~= cx.type_ident());
}

/// A named frame appends its name to the type name and keeps the domain.
pub proof fn law_with_name_appends(cx: CxView, n: Seq<char>)
    ensures
        cx.with_name(n).type_ident() == cx.type_ident() + n,
        cx.with_name(n).domain() == cx.domain(),
{
    assert(cx.with_name(n).frames.drop_first() =~= cx.frames);
}

/// A domain frame sets the domain and keeps the type name.
pub proof fn law_with_domain_sets_domain(cx: CxView, d: Seq<char>)
    ensures
        cx.with_domain(d).domain() == d,
        cx.with_domain(d).type_ident() == cx.type_ident(),
{
    assert(cx.with_domain(d).frames.drop_first() =~= cx.frames);
    assert(cx.type_ident() + Seq::<char>::empty() =~= cx.type_ident());
}

/// A context of code generation.
pub struct Context<'a> {
    pub experimentals: &'a ExperimentalTypes,
    pub parent: Option<&'a Context<'a>>,
    pub domain: Option<String>,
    pub name: Option<String>,
}

impl<'a> Context<'a> {
    /// The frames of this context, innermost first.
    pub open spec fn frames(&self) -> Seq<Frame>
        decreases self,
    {
        let f = Frame { domain: opt_view(self.domain), name: opt_view(self.name) };
        match self.parent {
            Some(p) => seq![f] + p.frames(),
            None => seq![f],
        }
    }

    /// The contexts of the chain, this one first, then its parent, and so on.
    pub open spec fn chain(&self) -> Seq<Context<'a>>
        decreases self,
    {
        match self.parent {
            Some(p) => seq![*self] + p.chain(),
            None => seq![*self],
        }
    }
}

impl<'a> View for Context<'a> {
    type V = CxView;

    open spec fn view(&self) -> CxView {
        CxView { experimentals: self.experimentals@, frames: self.frames() }
    }
}

impl<'a> Context<'a> {
    /// The outermost context.
    pub fn new_root(experimentals: &'a ExperimentalTypes) -> (r: Self)
        ensures
            r@ == (CxView { experimentals: experimentals@, frames: seq![Frame { domain: None, name: None }] }),
    {
        Context { experimentals, parent: None, domain: None, name: None }
    }

    /// A context inside this one that names nothing.
    pub fn with_none(&'a self) -> (r: Self)
        ensures
            r@ == self@.with_none(),
    {
        Context { experimentals: self.experimentals, parent: Some(self), domain: None, name: None }
    }

    /// A context inside this one for the domain `domain`.
    pub fn with_domain(&'a self, domain: &str) -> (r: Self)
        ensures
            r@ == self@.with_domain(domain@),
    {
        Context {
            experimentals: self.experimentals,
            parent: Some(self),
            domain: Some(String::from_str(domain)),
            name: None,
        }
    }

    /// A context inside this one that contributes the name `name`.
    pub fn with_name(&'a self, name: &str) -> (r: Self)
        ensures
            r@ == self@.with_name(name@),
    {
        Context {
            experimentals: self.experimentals,
            parent: Some(self),
            domain: None,
            name: Some(String::from_str(name)),
        }
    }

    /// The contexts of the chain, this one first.
    pub fn iter(&self) -> (r: Vec<&Context<'a>>)
        ensures
            r@.len() == self.chain().len(),
            forall|i: int| 0 <= i < r@.len() ==> *r@[i] == self.chain()[i],
        decreases self,
    {
        let mut r: Vec<&Context<'a>> = Vec::new();
        r.push(self);
        match self.parent {
            Some(p) => {
                let mut rest = p.iter();
                let ghost front = r@;
                let ghost tail = rest@;
                r.append(&mut rest);
                assert forall|i: int| 0 <= i < r@.len() implies *r@[i] == self.chain()[i] by {
                    if i > 0 {
                        assert(r@[i] == tail[i - 1]);
                    }
                }
            },
            None => {},
        }
        r
    }

    /// The type name of this context (see `frames_type_ident`).
    pub fn type_ident(&self) -> (r: String)
        ensures
            r@ == self@.type_ident(),
        decreases self,
    {
        let prefix = match self.parent {
            Some(p) => p.type_ident(),
            None => String::new(),
        };
        let ghost fr = self.frames();
        assert(fr.drop_first() =~= match self.parent {
            Some(p) => p.frames(),
            None => seq![],
        });
        assert(fr.len() > 0 && fr[0].name == opt_view(self.name));
        assert(frames_type_ident(seq![]) == Seq::<char>::empty());
        assert(frames_type_ident(fr) == frames_type_ident(fr.drop_first()) + match fr[0].name {
            Some(n) => n,
            None => seq![],
        });
        match &self.name {
            Some(n) => cat(prefix.as_str(), n.as_str()),
            None => {
                assert(prefix@ + seq![] =~= prefix@);
                prefix
            },
        }
    }

    /// The domain of this context (see `frames_domain`).
    pub fn domain(&self) -> (r: String)
        ensures
            r@ == self@.domain(),
        decreases self,
    {
        let ghost fr = self.frames();
        assert(fr.drop_first() =~= match self.parent {
            Some(p) => p.frames(),
            None => seq![],
        });
        assert(fr.len() > 0 && fr[0].domain == opt_view(self.domain));
        assert(frames_domain(seq![]) == Seq::<char>::empty());
        match &self.domain {
            Some(d) => d.clone(),
            None => match self.parent {
                Some(p) => p.domain(),
                None => String::new(),
            },
        }
    }
}

} // verus!
