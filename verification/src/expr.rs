//! Expression dependency analysis.
//!
//! [`ExprVisitor::parse`] walks an expression tree and decides how the
//! runtime must watch it: not at all ([`DependencyResult::Static`]), as a
//! literal property path ([`DependencyResult::SimplePath`]), as a property
//! path with computed keys ([`DependencyResult::DynamicPath`]), or by
//! re-evaluating the whole expression ([`DependencyResult::Arbitrary`]).
//!
//! A free identifier is one that is neither in the caller's exclusion set,
//! nor bound by an enclosing arrow function inside the analyzed expression,
//! nor a known builtin. The analysis is a pure function of the expression
//! and the exclusion set; it never fails, and shapes it does not recognize
//! degrade to `Arbitrary`.

use vstd::prelude::*;
use crate::ast::{
    Expr, ExprV, Lit, LitV, ParamPat, ParamPatV, clone_expr, expr_view, lemma_exprs_view_index,
    lemma_obj_props_view_index, lit_view, params_view,
};
use crate::nameset::{NameSet, name_set_contents};
use crate::text::str_eq;

verus! {

/// Identifier names that denote language builtins rather than reactive state.
pub open spec fn is_builtin(n: Seq<char>) -> bool {
    n == "undefined"@
}

/// A name is free when the exclusion set does not hold it and it is not a
/// builtin.
pub open spec fn is_free(n: Seq<char>, excl: Set<Seq<char>>) -> bool {
    !excl.contains(n) && !is_builtin(n)
}

/// The names bound by a callable's plainly named parameters.
pub open spec fn named_params(ps: Seq<ParamPatV>) -> Set<Seq<char>>
    decreases ps.len(),
{
    if ps.len() == 0 {
        Set::empty()
    } else {
        match ps.last() {
            ParamPatV::Named(n) => named_params(ps.drop_last()).insert(n),
            ParamPatV::Other => named_params(ps.drop_last()),
        }
    }
}

/// Left-to-right collection of the distinct free identifier roots of an
/// expression, appended to `acc` in first-occurrence order.
///
/// Arrow-function parameters shadow outer names within their own body; block
/// bodies, function expressions and markup values are opaque and contribute
/// nothing.
pub open spec fn collect_roots(e: ExprV, excl: Set<Seq<char>>, acc: Seq<Seq<char>>) -> Seq<
    Seq<char>,
>
    decreases e,
{
    match e {
        ExprV::Ident(n) => if is_free(n, excl) && !acc.contains(n) {
            acc.push(n)
        } else {
            acc
        },
        ExprV::LitE(_) => acc,
        ExprV::This => acc,
        ExprV::Member { obj, .. } => collect_roots(*obj, excl, acc),
        ExprV::Index { obj, key } => collect_roots(*key, excl, collect_roots(*obj, excl, acc)),
        ExprV::Call { callee, args } => collect_roots_seq(
            args,
            excl,
            collect_roots(*callee, excl, acc),
        ),
        ExprV::Bin { left, right } => collect_roots(*right, excl, collect_roots(*left, excl, acc)),
        ExprV::Assign { target, value } => collect_roots(
            *value,
            excl,
            collect_roots(*target, excl, acc),
        ),
        ExprV::Object(props) => collect_roots_props(props, excl, acc),
        ExprV::Arrow(f) => match f.body {
            Option::Some(b) => collect_roots(*b, excl.union(named_params(f.params)), acc),
            Option::None => acc,
        },
        ExprV::FnExpr { .. } => acc,
        ExprV::Paren(inner) => collect_roots(*inner, excl, acc),
        ExprV::JsxElement(_) => acc,
        ExprV::JsxFragment(_) => acc,
        ExprV::JsxOther => acc,
        ExprV::Other(subs) => collect_roots_seq(subs, excl, acc),
    }
}

pub open spec fn collect_roots_seq(s: Seq<ExprV>, excl: Set<Seq<char>>, acc: Seq<Seq<char>>) -> Seq<
    Seq<char>,
>
    decreases s,
{
    if s.len() == 0 {
        acc
    } else {
        collect_roots_seq(s.drop_first(), excl, collect_roots(s.first(), excl, acc))
    }
}

pub open spec fn collect_roots_props(
    props: Seq<(Seq<char>, ExprV)>,
    excl: Set<Seq<char>>,
    acc: Seq<Seq<char>>,
) -> Seq<Seq<char>>
    decreases props,
{
    if props.len() == 0 {
        acc
    } else {
        collect_roots_props(props.drop_first(), excl, collect_roots(props.first().1, excl, acc))
    }
}

/// The set of free identifiers of an expression, without order.
pub open spec fn free_set(e: ExprV, excl: Set<Seq<char>>) -> Set<Seq<char>>
    decreases e,
{
    match e {
        ExprV::Ident(n) => if is_free(n, excl) {
            Set::empty().insert(n)
        } else {
            Set::empty()
        },
        ExprV::LitE(_) => Set::empty(),
        ExprV::This => Set::empty(),
        ExprV::Member { obj, .. } => free_set(*obj, excl),
        ExprV::Index { obj, key } => free_set(*obj, excl).union(free_set(*key, excl)),
        ExprV::Call { callee, args } => free_set(*callee, excl).union(free_set_seq(args, excl)),
        ExprV::Bin { left, right } => free_set(*left, excl).union(free_set(*right, excl)),
        ExprV::Assign { target, value } => free_set(*target, excl).union(free_set(*value, excl)),
        ExprV::Object(props) => free_set_props(props, excl),
        ExprV::Arrow(f) => match f.body {
            Option::Some(b) => free_set(*b, excl.union(named_params(f.params))),
            Option::None => Set::empty(),
        },
        ExprV::FnExpr { .. } => Set::empty(),
        ExprV::Paren(inner) => free_set(*inner, excl),
        ExprV::JsxElement(_) => Set::empty(),
        ExprV::JsxFragment(_) => Set::empty(),
        ExprV::JsxOther => Set::empty(),
        ExprV::Other(subs) => free_set_seq(subs, excl),
    }
}

pub open spec fn free_set_seq(s: Seq<ExprV>, excl: Set<Seq<char>>) -> Set<Seq<char>>
    decreases s,
{
    if s.len() == 0 {
        Set::empty()
    } else {
        free_set(s.first(), excl).union(free_set_seq(s.drop_first(), excl))
    }
}

pub open spec fn free_set_props(props: Seq<(Seq<char>, ExprV)>, excl: Set<Seq<char>>) -> Set<
    Seq<char>,
>
    decreases props,
{
    if props.len() == 0 {
        Set::empty()
    } else {
        free_set(props.first().1, excl).union(free_set_props(props.drop_first(), excl))
    }
}

/// Whether the expression is a property-access chain rooted at a single
/// identifier, with parentheses looked through.
pub open spec fn is_chain(e: ExprV) -> bool
    decreases e,
{
    match e {
        ExprV::Ident(_) => true,
        ExprV::Member { obj, .. } => is_chain(*obj),
        ExprV::Index { obj, .. } => is_chain(*obj),
        ExprV::Paren(inner) => is_chain(*inner),
        _ => false,
    }
}

/// The root identifier of a chain.
pub open spec fn chain_root(e: ExprV) -> Seq<char>
    recommends
        is_chain(e),
    decreases e,
{
    match e {
        ExprV::Ident(n) => n,
        ExprV::Member { obj, .. } => chain_root(*obj),
        ExprV::Index { obj, .. } => chain_root(*obj),
        ExprV::Paren(inner) => chain_root(*inner),
        _ => Seq::empty(),
    }
}

/// Whether every access step of a chain uses a literal key.
pub open spec fn chain_literal(e: ExprV) -> bool
    decreases e,
{
    match e {
        ExprV::Ident(_) => true,
        ExprV::Member { obj, .. } => chain_literal(*obj),
        ExprV::Index { obj, key } => chain_literal(*obj) && (*key) is LitE,
        ExprV::Paren(inner) => chain_literal(*inner),
        _ => true,
    }
}

/// The text a literal contributes as a path segment.
pub open spec fn lit_text(l: LitV) -> Seq<char> {
    match l {
        LitV::Str(s) => s,
        LitV::Num(s) => s,
        LitV::Bool(b) => if b {
            "true"@
        } else {
            "false"@
        },
        LitV::Null => "null"@,
    }
}

/// Spec mirror of [`PathSeg`].
#[verifier::ext_equal]
pub ghost enum PathSegV {
    Lit(Seq<char>),
    Dyn(ExprV),
}

/// The access steps of a chain, in order from the root outwards. A literal
/// member name or a literal computed key yields a [`PathSegV::Lit`] segment;
/// any other computed key yields [`PathSegV::Dyn`].
pub open spec fn chain_segs(e: ExprV) -> Seq<PathSegV>
    recommends
        is_chain(e),
    decreases e,
{
    match e {
        ExprV::Ident(_) => Seq::empty(),
        ExprV::Member { obj, prop } => chain_segs(*obj).push(PathSegV::Lit(prop)),
        ExprV::Index { obj, key } => chain_segs(*obj).push(
            match *key {
                ExprV::LitE(l) => PathSegV::Lit(lit_text(l)),
                k => PathSegV::Dyn(k),
            },
        ),
        ExprV::Paren(inner) => chain_segs(*inner),
        _ => Seq::empty(),
    }
}

pub open spec fn seg_text(s: PathSegV) -> Seq<char> {
    match s {
        PathSegV::Lit(t) => t,
        PathSegV::Dyn(_) => Seq::empty(),
    }
}

/// The literal texts of a fully literal chain's segments.
pub open spec fn chain_lit_texts(e: ExprV) -> Seq<Seq<char>> {
    chain_segs(e).map_values(|s: PathSegV| seg_text(s))
}

/// Spec mirror of [`DependencyResult`].
#[verifier::ext_equal]
pub ghost enum DependencyResultV {
    Static,
    SimplePath { root: Seq<char>, path: Seq<Seq<char>> },
    DynamicPath { roots: Seq<Seq<char>>, path: Seq<PathSegV> },
    Arbitrary { roots: Seq<Seq<char>> },
}

/// What the analyzer returns: the full classification, as a pure function of
/// the expression and the exclusion set.
pub open spec fn spec_analyze(e: ExprV, excl: Set<Seq<char>>) -> DependencyResultV {
    let roots = collect_roots(e, excl, Seq::empty());
    if roots.len() == 0 {
        DependencyResultV::Static
    } else if is_chain(e) && is_free(chain_root(e), excl) {
        if chain_literal(e) {
            DependencyResultV::SimplePath { root: chain_root(e), path: chain_lit_texts(e) }
        } else {
            DependencyResultV::DynamicPath { roots, path: chain_segs(e) }
        }
    } else {
        DependencyResultV::Arbitrary { roots }
    }
}

/// One access step of a dependency path.
#[derive(Debug, PartialEq, Eq)]
pub enum PathSeg {
    /// A literal step: a member name or a literal computed key.
    LitSeg(String),
    /// A computed step whose key must be re-resolved at watch time.
    DynSeg(Box<Expr>),
}

pub open spec fn path_seg_view(s: PathSeg) -> PathSegV {
    match s {
        PathSeg::LitSeg(t) => PathSegV::Lit(t@),
        PathSeg::DynSeg(e) => PathSegV::Dyn(expr_view(*e)),
    }
}

pub open spec fn path_segs_view(s: Seq<PathSeg>) -> Seq<PathSegV>
    decreases s,
{
    if s.len() == 0 {
        Seq::empty()
    } else {
        path_segs_view(s.drop_last()).push(path_seg_view(s.last()))
    }
}

/// The views of a sequence of strings.
pub open spec fn strings_view(s: Seq<String>) -> Seq<Seq<char>>
    decreases s,
{
    if s.len() == 0 {
        Seq::empty()
    } else {
        strings_view(s.drop_last()).push(s.last()@)
    }
}

/// The set of views of a sequence of strings.
pub open spec fn names_set(s: Seq<String>) -> Set<Seq<char>>
    decreases s,
{
    if s.len() == 0 {
        Set::empty()
    } else {
        names_set(s.drop_last()).insert(s.last()@)
    }
}

/// How an attribute value depends on reactive state.
#[derive(Debug, PartialEq, Eq)]
pub enum DependencyResult {
    /// No reactive dependency; the value is computed once.
    Static,
    /// A property chain with only literal keys, rooted at `root`.
    SimplePath { root: String, path: Vec<String> },
    /// A property chain with at least one computed key.
    DynamicPath { roots: Vec<String>, path: Vec<PathSeg> },
    /// A general computation over the listed reactive roots.
    Arbitrary { roots: Vec<String> },
}

pub open spec fn dep_view(r: DependencyResult) -> DependencyResultV {
    match r {
        DependencyResult::Static => DependencyResultV::Static,
        DependencyResult::SimplePath { root, path } => DependencyResultV::SimplePath {
            root: root@,
            path: strings_view(path@),
        },
        DependencyResult::DynamicPath { roots, path } => DependencyResultV::DynamicPath {
            roots: strings_view(roots@),
            path: path_segs_view(path@),
        },
        DependencyResult::Arbitrary { roots } => DependencyResultV::Arbitrary {
            roots: strings_view(roots@),
        },
    }
}

pub proof fn lemma_strings_view_len(s: Seq<String>)
    ensures
        strings_view(s).len() == s.len(),
    decreases s.len(),
{
    if s.len() > 0 {
        lemma_strings_view_len(s.drop_last());
    }
}

pub proof fn lemma_strings_view_index(s: Seq<String>, i: int)
    requires
        0 <= i < s.len(),
    ensures
        strings_view(s).len() == s.len(),
        strings_view(s)[i] == s[i]@,
    decreases s.len(),
{
    lemma_strings_view_len(s);
    if i < s.len() - 1 {
        lemma_strings_view_index(s.drop_last(), i);
    }
}

pub proof fn lemma_strings_view_push(s: Seq<String>, x: String)
    ensures
        strings_view(s.push(x)) == strings_view(s).push(x@),
{
    assert(s.push(x).drop_last() =~= s);
    assert(s.push(x).last() == x);
}

pub proof fn lemma_strings_view_contains(s: Seq<String>, n: Seq<char>)
    ensures
        strings_view(s).contains(n) <==> exists|j: int| 0 <= j < s.len() && s[j]@ == n,
    decreases s.len(),
{
    lemma_strings_view_len(s);
    if s.len() > 0 {
        lemma_strings_view_contains(s.drop_last(), n);
        if s.last()@ == n {
            assert(strings_view(s).last() == n);
            assert(strings_view(s).contains(n));
            assert(s[s.len() - 1]@ == n);
        } else {
            if strings_view(s).contains(n) {
                let i = choose|i: int| 0 <= i < strings_view(s).len() && strings_view(s)[i] == n;
                assert(i < s.len() - 1) by {
                    lemma_strings_view_index(s, i);
                }
                assert(strings_view(s.drop_last())[i] == n) by {
                    lemma_strings_view_index(s.drop_last(), i);
                    lemma_strings_view_index(s, i);
                }
                assert(strings_view(s.drop_last()).contains(n));
            }
            if exists|j: int| 0 <= j < s.len() && s[j]@ == n {
                let j = choose|j: int| 0 <= j < s.len() && s[j]@ == n;
                assert(j < s.len() - 1);
                assert(s.drop_last()[j]@ == n);
                assert(strings_view(s.drop_last()).contains(n)) by {
                    lemma_strings_view_index(s.drop_last(), j);
                }
                assert(strings_view(s).contains(n)) by {
                    lemma_strings_view_index(s, j);
                }
            }
        }
    }
}

pub proof fn lemma_names_set_contains(s: Seq<String>, n: Seq<char>)
    ensures
        names_set(s).contains(n) <==> exists|j: int| 0 <= j < s.len() && s[j]@ == n,
    decreases s.len(),
{
    if s.len() > 0 {
        lemma_names_set_contains(s.drop_last(), n);
        if names_set(s).contains(n) && s.last()@ != n {
            assert(names_set(s.drop_last()).contains(n));
        }
        if exists|j: int| 0 <= j < s.len() && s[j]@ == n {
            let j = choose|j: int| 0 <= j < s.len() && s[j]@ == n;
            if j < s.len() - 1 {
                assert(s.drop_last()[j]@ == n);
            }
        }
    }
}

pub proof fn lemma_names_set_push(s: Seq<String>, x: String)
    ensures
        names_set(s.push(x)) == names_set(s).insert(x@),
{
    assert(s.push(x).drop_last() =~= s);
    assert(s.push(x).last() == x);
}


/// The dependency analyzer. `exclude` holds the names an enclosing callable
/// binds locally (for example a list-rendering callback's parameters), which
/// are never reactive roots.
pub struct ExprVisitor {
    pub exclude: Option<NameSet>,
}

/// The exclusion set a visitor was created with.
pub open spec fn visitor_excl(v: ExprVisitor) -> Set<Seq<char>> {
    match v.exclude {
        Option::Some(ns) => name_set_contents(ns),
        Option::None => Set::empty(),
    }
}

/// The exclusion in force at a point of the walk: the visitor's own set
/// together with the parameter names of the arrow functions entered so far.
pub open spec fn eff_excl(v: ExprVisitor, stack: Seq<String>) -> Set<Seq<char>> {
    visitor_excl(v).union(names_set(stack))
}

fn lit_text_exec(l: &Lit) -> (r: String)
    ensures
        r@ == lit_text(lit_view(*l)),
{
    match l {
        Lit::Str(s) => s.clone(),
        Lit::Num(s) => s.clone(),
        Lit::Bool(b) => if *b {
            String::from_str("true")
        } else {
            String::from_str("false")
        },
        Lit::Null => String::from_str("null"),
    }
}

fn vec_contains_name(v: &Vec<String>, name: &str) -> (r: bool)
    ensures
        r == strings_view(v@).contains(name@),
{
    let mut i: usize = 0;
    while i < v.len()
        invariant
            i <= v.len(),
            forall|j: int| 0 <= j < i ==> v@[j]@ != name@,
        decreases v@.len() - i,
    {
        if str_eq(v[i].as_str(), name) {
            proof {
                lemma_strings_view_contains(v@, name@);
            }
            return true;
        }
        i += 1;
    }
    proof {
        lemma_strings_view_contains(v@, name@);
    }
    false
}

fn push_named_params(params: &Vec<ParamPat>, stack: &mut Vec<String>)
    ensures
        final(stack)@.len() >= old(stack)@.len(),
        final(stack)@.subrange(0, old(stack)@.len() as int) == old(stack)@,
        names_set(final(stack)@) == names_set(old(stack)@).union(
            named_params(params_view(params@)),
        ),
{
    let mut i: usize = 0;
    while i < params.len()
        invariant
            i <= params.len(),
            stack@.len() >= old(stack)@.len(),
            stack@.subrange(0, old(stack)@.len() as int) =~= old(stack)@,
            names_set(stack@) =~= names_set(old(stack)@).union(
                named_params(params_view(params@.subrange(0, i as int))),
            ),
        decreases params@.len() - i,
    {
        let ghost pre = params_view(params@.subrange(0, i as int));
        let ghost post = params_view(params@.subrange(0, i + 1 as int));
        proof {
            assert(params@.subrange(0, i + 1 as int).drop_last() =~= params@.subrange(0, i as int));
            assert(params@.subrange(0, i + 1 as int).last() == params@[i as int]);
            crate::ast::lemma_params_view_push(
                params@.subrange(0, i as int),
                params@[i as int],
            );
            assert(params@.subrange(0, i as int).push(params@[i as int]) =~= params@.subrange(
                0,
                i + 1 as int,
            ));
            assert(post.drop_last() =~= pre);
        }
        match &params[i] {
            ParamPat::Named(n) => {
                let ghost s0 = stack@;
                stack.push(n.clone());
                proof {
                    lemma_names_set_push(s0, stack@.last());
                    assert(stack@.drop_last() =~= s0);
                    assert(stack@.subrange(0, old(stack)@.len() as int) =~= s0.subrange(
                        0,
                        old(stack)@.len() as int,
                    ));
                    assert(names_set(stack@) =~= names_set(old(stack)@).union(named_params(post)));
                }
            },
            ParamPat::Other => {
                proof {
                    assert(named_params(post) =~= named_params(pre));
                }
            },
        }
        i += 1;
    }
    proof {
        assert(params@.subrange(0, params@.len() as int) =~= params@);
    }
}

impl ExprVisitor {
    /// A visitor with an empty exclusion set.
    pub fn new() -> (v: ExprVisitor)
        ensures
            visitor_excl(v) == Set::<Seq<char>>::empty(),
    {
        ExprVisitor { exclude: Option::None }
    }

    /// A visitor that treats the given names as locally bound.
    pub fn new_with_exclude_roots(exclude: Option<NameSet>) -> (v: ExprVisitor)
        ensures
            visitor_excl(v) == (match exclude {
                Option::Some(ns) => name_set_contents(ns),
                Option::None => Set::<Seq<char>>::empty(),
            }),
    {
        ExprVisitor { exclude }
    }

    fn is_free_name(&self, name: &str, stack: &Vec<String>) -> (r: bool)
        ensures
            r == is_free(name@, eff_excl(*self, stack@)),
    {
        if str_eq(name, "undefined") {
            return false;
        }
        let in_excl = match &self.exclude {
            Option::Some(ns) => ns.contains(name),
            Option::None => false,
        };
        if in_excl {
            return false;
        }
        let mut i: usize = 0;
        while i < stack.len()
            invariant
                i <= stack.len(),
                forall|j: int| 0 <= j < i ==> stack@[j]@ != name@,
            decreases stack@.len() - i,
        {
            if str_eq(stack[i].as_str(), name) {
                proof {
                    lemma_names_set_contains(stack@, name@);
                }
                return false;
            }
            i += 1;
        }
        proof {
            lemma_names_set_contains(stack@, name@);
        }
        true
    }

    #[verifier::loop_isolation(false)]
    fn collect(&self, e: &Expr, stack: &mut Vec<String>, acc: &mut Vec<String>)
        ensures
            final(stack)@ == old(stack)@,
            strings_view(final(acc)@) == collect_roots(
                expr_view(*e),
                eff_excl(*self, old(stack)@),
                strings_view(old(acc)@),
            ),
        decreases *e,
    {
        match e {
            Expr::Ident(n) => {
                let free = self.is_free_name(n.as_str(), stack);
                let dup = vec_contains_name(acc, n.as_str());
                if free && !dup {
                    let ghost a0 = acc@;
                    acc.push(n.clone());
                    proof {
                        lemma_strings_view_push(a0, acc@.last());
                        assert(a0.push(acc@.last()) =~= acc@);
                        assert(strings_view(acc@) == strings_view(a0).push(n@));
                    }
                }
            },
            Expr::LitE(_) => {},
            Expr::This => {},
            Expr::Member { obj, .. } => {
                self.collect(obj, stack, acc);
            },
            Expr::Index { obj, key } => {
                self.collect(obj, stack, acc);
                self.collect(key, stack, acc);
            },
            Expr::Call { callee, args } => {
                self.collect(callee, stack, acc);
                let ghost eff = eff_excl(*self, stack@);
                let ghost av = crate::ast::exprs_view(args@);
                let ghost total = collect_roots_seq(av, eff, strings_view(acc@));
                proof {
                    crate::ast::lemma_exprs_view_len(args@);
                    assert(av.subrange(0, av.len() as int) =~= av);
                }
                let mut i: usize = 0;
                while i < args.len()
                    invariant
                        i <= args.len(),
                        stack@ == old(stack)@,
                        av == crate::ast::exprs_view(args@),
                        eff == eff_excl(*self, stack@),
                        av.len() == args@.len(),
                        collect_roots_seq(av.subrange(i as int, av.len() as int), eff,
                            strings_view(acc@)) == total,
                    decreases args@.len() - i,
                {
                    proof {
                        lemma_exprs_view_index(args@, i as int);
                        assert(av.subrange(i as int, av.len() as int).first() == av[i as int]);
                        assert(av.subrange(i as int, av.len() as int).drop_first()
                            =~= av.subrange(i + 1 as int, av.len() as int));
                    }
                    proof {
                        let ghost va = (*e)->args;
                        assert(va == *args);
                        assert(decreases_to!(*e => va));
                        assert(decreases_to!(va => va@));
                        assert(decreases_to!(va@ => va@[i as int]));
                    }
                    self.collect(&args[i], stack, acc);
                    i += 1;
                }
                proof {
                    assert(av.subrange(av.len() as int, av.len() as int).len() == 0);
                }
            },
            Expr::Bin { left, right } => {
                self.collect(left, stack, acc);
                self.collect(right, stack, acc);
            },
            Expr::Assign { target, value } => {
                self.collect(target, stack, acc);
                self.collect(value, stack, acc);
            },
            Expr::Object(props) => {
                let ghost eff = eff_excl(*self, stack@);
                let ghost pv = crate::ast::obj_props_view(props@);
                let ghost total = collect_roots_props(pv, eff, strings_view(acc@));
                proof {
                    crate::ast::lemma_obj_props_view_len(props@);
                    assert(pv.subrange(0, pv.len() as int) =~= pv);
                }
                let mut i: usize = 0;
                while i < props.len()
                    invariant
                        i <= props.len(),
                        stack@ == old(stack)@,
                        pv == crate::ast::obj_props_view(props@),
                        eff == eff_excl(*self, stack@),
                        pv.len() == props@.len(),
                        collect_roots_props(pv.subrange(i as int, pv.len() as int), eff,
                            strings_view(acc@)) == total,
                    decreases props@.len() - i,
                {
                    proof {
                        lemma_obj_props_view_index(props@, i as int);
                        assert(pv.subrange(i as int, pv.len() as int).first() == pv[i as int]);
                        assert(pv.subrange(i as int, pv.len() as int).drop_first()
                            =~= pv.subrange(i + 1 as int, pv.len() as int));
                    }
                    proof {
                        let ghost vp = (*e)->Object_0;
                        assert(vp == *props);
                        assert(decreases_to!(*e => vp));
                        assert(decreases_to!(vp => vp@));
                        assert(decreases_to!(vp@ => vp@[i as int]));
                        assert(decreases_to!(vp@[i as int] => vp@[i as int].1));
                    }
                    self.collect(&props[i].1, stack, acc);
                    i += 1;
                }
                proof {
                    assert(pv.subrange(pv.len() as int, pv.len() as int).len() == 0);
                }
            },
            Expr::Arrow(f) => {
                match &f.body {
                    Option::Some(b) => {
                        let n0 = stack.len();
                        push_named_params(&f.params, stack);
                        proof {
                            assert(eff_excl(*self, stack@) =~= eff_excl(*self, old(stack)@).union(
                                named_params(params_view(f.params@)),
                            ));
                        }
                        self.collect(b, stack, acc);
                        stack.truncate(n0);
                        proof {
                            assert(stack@ =~= old(stack)@);
                            let ghost ev = expr_view(*e);
                            let ghost eff0 = eff_excl(*self, old(stack)@);
                            let ghost aa = strings_view(old(acc)@);
                            assert(ev == ExprV::Arrow(crate::ast::arrow_view(*f)));
                            assert(crate::ast::arrow_view(*f).params == params_view(f.params@));
                            assert(crate::ast::arrow_view(*f).body == Option::Some(
                                Box::new(expr_view(**b)),
                            ));
                            assert(collect_roots(ev, eff0, aa) == collect_roots(
                                expr_view(**b),
                                eff0.union(named_params(params_view(f.params@))),
                                aa,
                            ));
                            assert(strings_view(acc@) == collect_roots(ev, eff0, aa));
                        }
                    },
                    Option::None => {},
                }
            },
            Expr::FnExpr { .. } => {},
            Expr::Paren(inner) => {
                self.collect(inner, stack, acc);
            },
            Expr::JsxElement(_) => {},
            Expr::JsxFragment(_) => {},
            Expr::JsxOther => {},
            Expr::Other(subs) => {
                let ghost eff = eff_excl(*self, stack@);
                let ghost sv = crate::ast::exprs_view(subs@);
                let ghost total = collect_roots_seq(sv, eff, strings_view(acc@));
                proof {
                    crate::ast::lemma_exprs_view_len(subs@);
                    assert(sv.subrange(0, sv.len() as int) =~= sv);
                }
                let mut i: usize = 0;
                while i < subs.len()
                    invariant
                        i <= subs.len(),
                        stack@ == old(stack)@,
                        sv == crate::ast::exprs_view(subs@),
                        eff == eff_excl(*self, stack@),
                        sv.len() == subs@.len(),
                        collect_roots_seq(sv.subrange(i as int, sv.len() as int), eff,
                            strings_view(acc@)) == total,
                    decreases subs@.len() - i,
                {
                    proof {
                        lemma_exprs_view_index(subs@, i as int);
                        assert(sv.subrange(i as int, sv.len() as int).first() == sv[i as int]);
                        assert(sv.subrange(i as int, sv.len() as int).drop_first()
                            =~= sv.subrange(i + 1 as int, sv.len() as int));
                    }
                    proof {
                        let ghost vs = (*e)->Other_0;
                        assert(vs == *subs);
                        assert(decreases_to!(*e => vs));
                        assert(decreases_to!(vs => vs@));
                        assert(decreases_to!(vs@ => vs@[i as int]));
                    }
                    self.collect(&subs[i], stack, acc);
                    i += 1;
                }
                proof {
                    assert(sv.subrange(sv.len() as int, sv.len() as int).len() == 0);
                }
            },
        }
    }

    fn chain_parts(e: &Expr, segs: &mut Vec<PathSeg>, texts: &mut Vec<String>) -> (root: Option<
        (String, bool),
    >)
        ensures
            match root {
                Option::Some(p) => {
                    &&& is_chain(expr_view(*e))
                    &&& p.0@ == chain_root(expr_view(*e))
                    &&& p.1 == chain_literal(expr_view(*e))
                    &&& path_segs_view(final(segs)@) == path_segs_view(old(segs)@) + chain_segs(
                        expr_view(*e),
                    )
                    &&& p.1 ==> strings_view(final(texts)@) == strings_view(old(texts)@)
                        + chain_lit_texts(expr_view(*e))
                },
                Option::None => {
                    &&& !is_chain(expr_view(*e))
                },
            },
        decreases *e,
    {
        match e {
            Expr::Ident(n) => {
                proof {
                    assert(path_segs_view(segs@) + chain_segs(expr_view(*e)) =~= path_segs_view(
                        segs@,
                    ));
                    assert(chain_lit_texts(expr_view(*e)) =~= Seq::<Seq<char>>::empty());
                    assert(strings_view(texts@) + chain_lit_texts(expr_view(*e)) =~= strings_view(
                        texts@,
                    ));
                }
                Option::Some((n.clone(), true))
            },
            Expr::Member { obj, prop } => {
                let r = Self::chain_parts(obj, segs, texts);
                match r {
                    Option::Some(p) => {
                        let ghost s0 = segs@;
                        let ghost t0 = texts@;
                        let seg = PathSeg::LitSeg(prop.clone());
                        segs.push(seg);
                        texts.push(prop.clone());
                        proof {
                            lemma_path_segs_view_push(s0, segs@.last());
                            assert(segs@.drop_last() =~= s0);
                            lemma_strings_view_push(t0, texts@.last());
                            assert(texts@.drop_last() =~= t0);
                            assert(path_segs_view(segs@) =~= path_segs_view(old(segs)@)
                                + chain_segs(expr_view(*e)));
                            let ev = expr_view(*e);
                            assert(chain_segs(ev) == chain_segs(expr_view(**obj)).push(
                                PathSegV::Lit(prop@),
                            ));
                            if p.1 {
                                assert(chain_lit_texts(ev) =~= chain_lit_texts(expr_view(**obj))
                                    .push(prop@));
                                assert(strings_view(texts@) =~= strings_view(old(texts)@)
                                    + chain_lit_texts(ev));
                            }
                        }
                        Option::Some(p)
                    },
                    Option::None => Option::None,
                }
            },
            Expr::Index { obj, key } => {
                let r = Self::chain_parts(obj, segs, texts);
                match r {
                    Option::Some(p) => {
                        let ghost s0 = segs@;
                        let ghost t0 = texts@;
                        match &**key {
                            Expr::LitE(l) => {
                                let t = lit_text_exec(l);
                                segs.push(PathSeg::LitSeg(t));
                                let t2 = lit_text_exec(l);
                                texts.push(t2);
                                proof {
                                    let ev = expr_view(*e);
                                    assert(expr_view(**key) is LitE);
                                    lemma_path_segs_view_push(s0, segs@.last());
                                    assert(segs@.drop_last() =~= s0);
                                    lemma_strings_view_push(t0, texts@.last());
                                    assert(texts@.drop_last() =~= t0);
                                    assert(chain_segs(ev) == chain_segs(expr_view(**obj)).push(
                                        PathSegV::Lit(lit_text(lit_view(*l))),
                                    ));
                                    assert(path_segs_view(segs@) =~= path_segs_view(old(segs)@)
                                        + chain_segs(ev));
                                    if p.1 {
                                        assert(chain_lit_texts(ev) =~= chain_lit_texts(
                                            expr_view(**obj),
                                        ).push(lit_text(lit_view(*l))));
                                        assert(strings_view(texts@) =~= strings_view(old(texts)@)
                                            + chain_lit_texts(ev));
                                    }
                                }
                                Option::Some(p)
                            },
                            _ => {
                                let c = clone_expr(key);
                                segs.push(PathSeg::DynSeg(Box::new(c)));
                                proof {
                                    let ev = expr_view(*e);
                                    assert(!(expr_view(**key) is LitE));
                                    lemma_path_segs_view_push(s0, segs@.last());
                                    assert(segs@.drop_last() =~= s0);
                                    assert(chain_segs(ev) == chain_segs(expr_view(**obj)).push(
                                        PathSegV::Dyn(expr_view(**key)),
                                    ));
                                    assert(path_segs_view(segs@) =~= path_segs_view(old(segs)@)
                                        + chain_segs(ev));
                                    assert(!chain_literal(ev));
                                }
                                Option::Some((p.0, false))
                            },
                        }
                    },
                    Option::None => Option::None,
                }
            },
            Expr::Paren(inner) => {
                let r = Self::chain_parts(inner, segs, texts);
                r
            },
            _ => Option::None,
        }
    }

    /// Classify an expression. The result is `spec_analyze` of the
    /// expression's view and the visitor's exclusion set, exactly.
    pub fn parse(&self, e: &Expr) -> (r: DependencyResult)
        ensures
            dep_view(r) == spec_analyze(expr_view(*e), visitor_excl(*self)),
    {
        let mut stack: Vec<String> = Vec::new();
        let mut roots: Vec<String> = Vec::new();
        proof {
            assert(eff_excl(*self, Seq::<String>::empty()) =~= visitor_excl(*self));
        }
        self.collect(e, &mut stack, &mut roots);
        let ghost ev = expr_view(*e);
        let ghost excl = visitor_excl(*self);
        let ghost roots_spec = collect_roots(ev, excl, Seq::empty());
        proof {
            assert(strings_view(roots@) == roots_spec);
            lemma_strings_view_len(roots@);
        }
        if roots.len() == 0 {
            return DependencyResult::Static;
        }
        let mut segs: Vec<PathSeg> = Vec::new();
        let mut texts: Vec<String> = Vec::new();
        let cp = Self::chain_parts(e, &mut segs, &mut texts);
        match cp {
            Option::Some(p) => {
                let (rt, lit) = p;
                if self.is_free_name(rt.as_str(), &stack) {
                    if lit {
                        proof {
                            assert(strings_view(texts@) =~= chain_lit_texts(ev));
                        }
                        DependencyResult::SimplePath { root: rt, path: texts }
                    } else {
                        proof {
                            assert(path_segs_view(segs@) =~= chain_segs(ev));
                        }
                        DependencyResult::DynamicPath { roots, path: segs }
                    }
                } else {
                    DependencyResult::Arbitrary { roots }
                }
            },
            Option::None => DependencyResult::Arbitrary { roots },
        }
    }
}

pub proof fn lemma_path_segs_view_push(s: Seq<PathSeg>, x: PathSeg)
    ensures
        path_segs_view(s.push(x)) == path_segs_view(s).push(path_seg_view(x)),
{
    assert(s.push(x).drop_last() =~= s);
    assert(s.push(x).last() == x);
}

/// Root collection never duplicates a name, and the names it appends to `acc`
/// are exactly the free identifiers of the expression.
pub proof fn lemma_collect_roots_set(e: ExprV, excl: Set<Seq<char>>, acc: Seq<Seq<char>>)
    requires
        acc.no_duplicates(),
    ensures
        collect_roots(e, excl, acc).no_duplicates(),
        forall|n: Seq<char>|
            #[trigger] collect_roots(e, excl, acc).contains(n) <==> (acc.contains(n) || free_set(
                e,
                excl,
            ).contains(n)),
    decreases e,
{
    match e {
        ExprV::Ident(m) => {
            if is_free(m, excl) && !acc.contains(m) {
                let r = acc.push(m);
                assert forall|n: Seq<char>| #[trigger]
                    r.contains(n) implies (acc.contains(n) || free_set(e, excl).contains(n)) by {
                    let i = choose|i: int| 0 <= i < r.len() && r[i] == n;
                    if i < acc.len() {
                        assert(acc.contains(n));
                    }
                }
                assert forall|n: Seq<char>|
                    (acc.contains(n) || free_set(e, excl).contains(n)) implies #[trigger]
                    r.contains(n) by {
                    if acc.contains(n) {
                        let i = choose|i: int| 0 <= i < acc.len() && acc[i] == n;
                        assert(r[i] == n);
                    } else {
                        assert(n == m);
                        assert(r[acc.len() as int] == m);
                    }
                }
            }
        },
        ExprV::LitE(_) => {},
        ExprV::This => {},
        ExprV::Member { obj, .. } => {
            lemma_collect_roots_set(*obj, excl, acc);
        },
        ExprV::Index { obj, key } => {
            lemma_collect_roots_set(*obj, excl, acc);
            lemma_collect_roots_set(*key, excl, collect_roots(*obj, excl, acc));
        },
        ExprV::Call { callee, args } => {
            lemma_collect_roots_set(*callee, excl, acc);
            lemma_collect_roots_seq_set(args, excl, collect_roots(*callee, excl, acc));
        },
        ExprV::Bin { left, right } => {
            lemma_collect_roots_set(*left, excl, acc);
            lemma_collect_roots_set(*right, excl, collect_roots(*left, excl, acc));
        },
        ExprV::Assign { target, value } => {
            lemma_collect_roots_set(*target, excl, acc);
            lemma_collect_roots_set(*value, excl, collect_roots(*target, excl, acc));
        },
        ExprV::Object(props) => {
            lemma_collect_roots_props_set(props, excl, acc);
        },
        ExprV::Arrow(f) => {
            match f.body {
                Option::Some(b) => {
                    lemma_collect_roots_set(*b, excl.union(named_params(f.params)), acc);
                },
                Option::None => {},
            }
        },
        ExprV::FnExpr { .. } => {},
        ExprV::Paren(inner) => {
            lemma_collect_roots_set(*inner, excl, acc);
        },
        ExprV::JsxElement(_) => {},
        ExprV::JsxFragment(_) => {},
        ExprV::JsxOther => {},
        ExprV::Other(subs) => {
            lemma_collect_roots_seq_set(subs, excl, acc);
        },
    }
}

pub proof fn lemma_collect_roots_seq_set(s: Seq<ExprV>, excl: Set<Seq<char>>, acc: Seq<Seq<char>>)
    requires
        acc.no_duplicates(),
    ensures
        collect_roots_seq(s, excl, acc).no_duplicates(),
        forall|n: Seq<char>|
            #[trigger] collect_roots_seq(s, excl, acc).contains(n) <==> (acc.contains(n)
                || free_set_seq(s, excl).contains(n)),
    decreases s,
{
    if s.len() > 0 {
        lemma_collect_roots_set(s.first(), excl, acc);
        lemma_collect_roots_seq_set(s.drop_first(), excl, collect_roots(s.first(), excl, acc));
    }
}

pub proof fn lemma_collect_roots_props_set(
    props: Seq<(Seq<char>, ExprV)>,
    excl: Set<Seq<char>>,
    acc: Seq<Seq<char>>,
)
    requires
        acc.no_duplicates(),
    ensures
        collect_roots_props(props, excl, acc).no_duplicates(),
        forall|n: Seq<char>|
            #[trigger] collect_roots_props(props, excl, acc).contains(n) <==> (acc.contains(n)
                || free_set_props(props, excl).contains(n)),
    decreases props,
{
    if props.len() > 0 {
        lemma_collect_roots_set(props.first().1, excl, acc);
        lemma_collect_roots_props_set(
            props.drop_first(),
            excl,
            collect_roots(props.first().1, excl, acc),
        );
    }
}

/// The root of a free-rooted chain is one of its free identifiers.
pub proof fn lemma_chain_root_free(e: ExprV, excl: Set<Seq<char>>)
    requires
        is_chain(e),
        is_free(chain_root(e), excl),
    ensures
        free_set(e, excl).contains(chain_root(e)),
    decreases e,
{
    match e {
        ExprV::Ident(_) => {},
        ExprV::Member { obj, .. } => {
            lemma_chain_root_free(*obj, excl);
        },
        ExprV::Index { obj, .. } => {
            lemma_chain_root_free(*obj, excl);
        },
        ExprV::Paren(inner) => {
            lemma_chain_root_free(*inner, excl);
        },
        _ => {},
    }
}

/// An expression with no free identifier outside the exclusion set is
/// classified `Static`.
pub proof fn lemma_no_free_roots_static(e: ExprV, excl: Set<Seq<char>>)
    requires
        forall|n: Seq<char>| !free_set(e, excl).contains(n),
    ensures
        spec_analyze(e, excl) == DependencyResultV::Static,
{
    lemma_collect_roots_set(e, excl, Seq::empty());
    let r = collect_roots(e, excl, Seq::empty());
    if r.len() > 0 {
        assert(r.contains(r[0]));
    }
}

/// A property chain rooted at a free identifier whose steps are all literal
/// is classified `SimplePath`, naming that root and the literal path.
pub proof fn lemma_literal_chain_simple_path(e: ExprV, excl: Set<Seq<char>>)
    requires
        is_chain(e),
        chain_literal(e),
        is_free(chain_root(e), excl),
    ensures
        spec_analyze(e, excl) == (DependencyResultV::SimplePath {
            root: chain_root(e),
            path: chain_lit_texts(e),
        }),
{
    lemma_chain_root_free(e, excl);
    lemma_collect_roots_set(e, excl, Seq::empty());
    let r = collect_roots(e, excl, Seq::empty());
    assert(r.contains(chain_root(e)));
}

/// A chain rooted at a free identifier with at least one computed
/// (non-literal) key is classified `DynamicPath` — never `SimplePath`.
pub proof fn lemma_computed_chain_dynamic_path(e: ExprV, excl: Set<Seq<char>>)
    requires
        is_chain(e),
        !chain_literal(e),
        is_free(chain_root(e), excl),
    ensures
        spec_analyze(e, excl) matches DependencyResultV::DynamicPath { roots, path } && {
            &&& path == chain_segs(e)
            &&& roots == collect_roots(e, excl, Seq::<Seq<char>>::empty())
            &&& roots.no_duplicates()
            &&& forall|n: Seq<char>|
                #[trigger] roots.contains(n) <==> free_set(e, excl).contains(n)
        },
{
    lemma_chain_root_free(e, excl);
    lemma_collect_roots_set(e, excl, Seq::empty());
    let r = collect_roots(e, excl, Seq::empty());
    assert(r.contains(chain_root(e)));
}

/// Whatever the expression, a `SimplePath` classification implies a fully
/// literal chain: a chain with a computed key can never come out as
/// `SimplePath`.
pub proof fn lemma_simple_path_needs_literal_chain(e: ExprV, excl: Set<Seq<char>>)
    ensures
        spec_analyze(e, excl) is SimplePath ==> (is_chain(e) && chain_literal(e) && is_free(
            chain_root(e),
            excl,
        )),
{
}

/// An expression that is not a free-rooted chain but references at least one
/// free identifier is classified `Arbitrary`, carrying exactly the distinct
/// free identifiers.
pub proof fn lemma_arbitrary_exact_roots(e: ExprV, excl: Set<Seq<char>>)
    requires
        !(is_chain(e) && is_free(chain_root(e), excl)),
        exists|n: Seq<char>| free_set(e, excl).contains(n),
    ensures
        spec_analyze(e, excl) matches DependencyResultV::Arbitrary { roots } && {
            &&& roots.no_duplicates()
            &&& forall|n: Seq<char>|
                #[trigger] roots.contains(n) <==> free_set(e, excl).contains(n)
        },
{
    lemma_collect_roots_set(e, excl, Seq::empty());
    let w = choose|n: Seq<char>| free_set(e, excl).contains(n);
    let r = collect_roots(e, excl, Seq::empty());
    assert(r.contains(w));
}

} // verus!
