use vstd::prelude::*;

verus! {

/// Why the hook attribute rejects a declaration.
#[derive(Debug, Clone, Copy, PartialEq, Eq, Structural)]
pub enum CodegenError {
    /// The declared address does not fit in 32 bits.
    AddressTooLarge,
    /// The hooked function is not declared `unsafe`.
    NotUnsafe,
    /// The parameter at `index`, after the first, is a `self` receiver.
    UnsupportedArgument { index: usize },
    /// The hooked function has no parameters, so no original to receive.
    NoArguments,
    /// The first parameter is a `self` receiver, not the original.
    MissingOrig,
    /// The first parameter's type is not a plain type path.
    InvalidOrig,
    /// The parameter at `index`, after the first, binds something other than a
    /// plain name.
    UnsupportedPattern { index: usize },
}

/// The pattern a parameter binds.
#[derive(Debug)]
pub enum ParamPattern {
    Ident { name: String },
    Wild,
    Other,
}

/// A parameter of the hooked function: a receiver, or a typed pattern with its
/// type's text and, where that type is a path, the path's last identifier.
#[derive(Debug)]
pub enum HookParam {
    Receiver,
    Typed { pattern: ParamPattern, ty: String, path_ident: Option<String> },
}

/// The hooked function as written: its name, whether it is `unsafe`, its
/// parameters (the first receives the original) and its return type's text.
#[derive(Debug)]
pub struct HookFn {
    pub name: String,
    pub is_unsafe: bool,
    pub params: Vec<HookParam>,
    pub output: Option<String>,
}

/// The name of a parameter of a bare function type.
#[derive(Debug)]
pub enum BareName {
    Named { name: String },
    Wild,
}

/// A parameter of a bare function type.
#[derive(Debug)]
pub struct BareParam {
    pub name: Option<BareName>,
    pub ty: String,
}

/// The hook attribute's arguments: the offset of the hooked function into the
/// target module and, optionally, the name to initialize with.
#[derive(Debug)]
pub struct HookArgs {
    pub address: u32,
    pub name: Option<String>,
}

/// What the generated code is made from: the alias and parameters of the
/// original-function type (an `unsafe extern "C"` function type), its return
/// type, the registration routine's name, the hooked function's name and the
/// names the trampoline forwards, the offset and the initialization name.
#[derive(Debug)]
pub struct HookPlan {
    pub orig_type_ident: String,
    pub orig_params: Vec<BareParam>,
    pub output: Option<String>,
    pub fn_name: String,
    pub ctor_ident: String,
    pub forward_args: Vec<String>,
    pub address: u32,
    pub mod_name: Option<String>,
}

impl HookArgs {
    /// The arguments from the address literal's value and the optional name:
    /// `AddressTooLarge` where the value does not fit in 32 bits.
    pub fn parse(value: u128, name: Option<String>) -> (r: Result<HookArgs, CodegenError>)
        ensures
            value > u32::MAX ==> r == Err::<HookArgs, CodegenError>(CodegenError::AddressTooLarge),
            value <= u32::MAX ==> r == Ok::<HookArgs, CodegenError>(
                (HookArgs { address: value as u32, name }),
            ),
    {
        if value > u32::MAX as u128 {
            Err(CodegenError::AddressTooLarge)
        } else {
            Ok(HookArgs { address: value as u32, name })
        }
    }
}

pub open spec fn is_receiver(p: HookParam) -> bool {
    p is Receiver
}

/// The parameter binds a plain name.
pub open spec fn binds_ident(p: HookParam) -> bool {
    match p {
        HookParam::Typed { pattern: ParamPattern::Ident { .. }, .. } => true,
        _ => false,
    }
}

/// The last identifier of the parameter's type path, if it has one.
pub open spec fn type_path_ident(p: HookParam) -> Option<String> {
    match p {
        HookParam::Typed { path_ident, .. } => path_ident,
        HookParam::Receiver => None,
    }
}

/// A typed parameter as a parameter of a bare function type: same type, and
/// the name kept where the pattern is a name or `_`.
pub open spec fn bare_of(p: HookParam) -> BareParam {
    match p {
        HookParam::Typed { pattern, ty, .. } => BareParam {
            name: match pattern {
                ParamPattern::Ident { name } => Some(BareName::Named { name }),
                ParamPattern::Wild => Some(BareName::Wild),
                ParamPattern::Other => None,
            },
            ty,
        },
        HookParam::Receiver => arbitrary(),
    }
}

/// The name a parameter binds, which the trampoline forwards.
pub open spec fn forwarded(p: HookParam) -> String {
    match p {
        HookParam::Typed { pattern: ParamPattern::Ident { name }, .. } => name,
        _ => arbitrary(),
    }
}

/// Parameter `i` is the first receiver after the original.
pub open spec fn is_first_receiver(ps: Seq<HookParam>, i: int) -> bool {
    &&& 1 <= i < ps.len()
    &&& is_receiver(ps[i])
    &&& forall|j: int| 1 <= j < i ==> !is_receiver(#[trigger] ps[j])
}

/// Parameter `i` is the first after the original that binds no plain name.
pub open spec fn is_first_unnamed(ps: Seq<HookParam>, i: int) -> bool {
    &&& 1 <= i < ps.len()
    &&& !binds_ident(ps[i])
    &&& forall|j: int| 1 <= j < i ==> binds_ident(#[trigger] ps[j])
}

/// Why the declaration is rejected, checked in this order, if it is; an error
/// about one parameter gives the least index of an offending one.
pub open spec fn plan_error(f: HookFn) -> Option<CodegenError> {
    let ps = f.params@;
    if !f.is_unsafe {
        Some(CodegenError::NotUnsafe)
    } else if exists|i: int| 1 <= i < ps.len() && is_receiver(#[trigger] ps[i]) {
        Some(
            CodegenError::UnsupportedArgument {
                index: (choose|i: int| is_first_receiver(ps, i)) as usize,
            },
        )
    } else if ps.len() == 0 {
        Some(CodegenError::NoArguments)
    } else if is_receiver(ps[0]) {
        Some(CodegenError::MissingOrig)
    } else if type_path_ident(ps[0]) is None {
        Some(CodegenError::InvalidOrig)
    } else if exists|i: int| 1 <= i < ps.len() && !binds_ident(#[trigger] ps[i]) {
        Some(
            CodegenError::UnsupportedPattern {
                index: (choose|i: int| is_first_unnamed(ps, i)) as usize,
            },
        )
    } else {
        None
    }
}

/// `p` is the plan for hooking `f` with `args`.
pub open spec fn is_plan(args: HookArgs, f: HookFn, p: HookPlan) -> bool {
    &&& f.params@.len() >= 1
    &&& Some(p.orig_type_ident) == type_path_ident(f.params@[0])
    &&& p.orig_params@ == f.params@.drop_first().map_values(|q: HookParam| bare_of(q))
    &&& p.output == f.output
    &&& p.fn_name == f.name
    &&& p.ctor_ident@ == f.name@ + "_apply"@
    &&& p.forward_args@ == f.params@.drop_first().map_values(|q: HookParam| forwarded(q))
    &&& p.address == args.address
    &&& p.mod_name == args.name
}

fn clone_opt(s: &Option<String>) -> (r: Option<String>)
    ensures
        r == *s,
{
    match s {
        Some(t) => Some(t.clone()),
        None => None,
    }
}

/// The index of the first parameter after the original that is a receiver,
/// if some parameter after the original is one.
fn find_receiver(ps: &Vec<HookParam>) -> (r: Option<usize>)
    ensures
        r is None <==> !exists|i: int| 1 <= i < ps@.len() && is_receiver(#[trigger] ps@[i]),
        r is Some ==> is_first_receiver(ps@, r->0 as int),
{
    let mut i: usize = 1;
    while i < ps.len()
        invariant
            1 <= i,
            ps@.len() == 0 || i <= ps@.len(),
            forall|j: int| 1 <= j < i && j < ps@.len() ==> !is_receiver(#[trigger] ps@[j]),
        decreases ps@.len() - i,
    {
        if let HookParam::Receiver = &ps[i] {
            assert(is_receiver(ps@[i as int]));
            return Some(i);
        }
        i = i + 1;
    }
    None
}

/// The index of the first parameter after the original that binds something
/// else than a name, if there is one.
fn find_unnamed(ps: &Vec<HookParam>) -> (r: Option<usize>)
    ensures
        r is None <==> !exists|i: int| 1 <= i < ps@.len() && !binds_ident(#[trigger] ps@[i]),
        r is Some ==> is_first_unnamed(ps@, r->0 as int),
{
    let mut i: usize = 1;
    while i < ps.len()
        invariant
            1 <= i,
            ps@.len() == 0 || i <= ps@.len(),
            forall|j: int| 1 <= j < i && j < ps@.len() ==> binds_ident(#[trigger] ps@[j]),
        decreases ps@.len() - i,
    {
        match &ps[i] {
            HookParam::Typed { pattern: ParamPattern::Ident { .. }, .. } => {},
            _ => {
                assert(!binds_ident(ps@[i as int]));
                return Some(i);
            },
        }
        i = i + 1;
    }
    None
}

proof fn lemma_first_receiver_unique(ps: Seq<HookParam>, i: int, k: int)
    requires
        is_first_receiver(ps, i),
        is_first_receiver(ps, k),
    ensures
        i == k,
{
    if i < k {
        assert(!is_receiver(ps[i]));
    } else if k < i {
        assert(!is_receiver(ps[k]));
    }
}

proof fn lemma_first_unnamed_unique(ps: Seq<HookParam>, i: int, k: int)
    requires
        is_first_unnamed(ps, i),
        is_first_unnamed(ps, k),
    ensures
        i == k,
{
    if i < k {
        assert(binds_ident(ps[i]));
    } else if k < i {
        assert(binds_ident(ps[k]));
    }
}

} // verus!

verus! {

/// A typed parameter as a parameter of the original-function type.
fn to_bare(p: &HookParam) -> (r: BareParam)
    requires
        !is_receiver(*p),
    ensures
        r == bare_of(*p),
{
    match p {
        HookParam::Typed { pattern, ty, .. } => {
            let name = match pattern {
                ParamPattern::Ident { name } => Some(BareName::Named { name: name.clone() }),
                ParamPattern::Wild => Some(BareName::Wild),
                ParamPattern::Other => None,
            };
            BareParam { name, ty: ty.clone() }
        },
        HookParam::Receiver => {
            proof {
                assert(false);
            }
            BareParam { name: None, ty: String::new() }
        },
    }
}

/// Plans the code generated for hooking `f` at `args`: the original-function
/// type is `f`'s parameters without the first, in order, with `f`'s return
/// type; the trampoline forwards its parameters' names; the registration
/// routine is named after `f`. A declaration that `plan_error` rejects gives
/// that error.
pub fn plan_hook(args: &HookArgs, f: &HookFn) -> (r: Result<HookPlan, CodegenError>)
    ensures
        plan_error(*f) is Some ==> r == Err::<HookPlan, CodegenError>(plan_error(*f)->0),
        plan_error(*f) is None ==> r is Ok && is_plan(*args, *f, r->Ok_0),
{
    let ps = &f.params;
    if !f.is_unsafe {
        return Err(CodegenError::NotUnsafe);
    }
    if let Some(index) = find_receiver(ps) {
        proof {
            let k = choose|k: int| is_first_receiver(ps@, k);
            lemma_first_receiver_unique(ps@, index as int, k);
        }
        return Err(CodegenError::UnsupportedArgument { index });
    }
    if ps.len() == 0 {
        return Err(CodegenError::NoArguments);
    }
    let orig_type_ident = match &ps[0] {
        HookParam::Receiver => {
            return Err(CodegenError::MissingOrig);
        },
        HookParam::Typed { path_ident, .. } => match path_ident {
            Some(id) => id.clone(),
            None => {
                return Err(CodegenError::InvalidOrig);
            },
        },
    };
    if let Some(index) = find_unnamed(ps) {
        proof {
            let k = choose|k: int| is_first_unnamed(ps@, k);
            lemma_first_unnamed_unique(ps@, index as int, k);
        }
        return Err(CodegenError::UnsupportedPattern { index });
    }
    let mut orig_params: Vec<BareParam> = Vec::new();
    let mut forward_args: Vec<String> = Vec::new();
    let mut i: usize = 1;
    while i < ps.len()
        invariant
            1 <= i <= ps@.len(),
            forall|j: int| 1 <= j < ps@.len() ==> !is_receiver(#[trigger] ps@[j]),
            forall|j: int| 1 <= j < ps@.len() ==> binds_ident(#[trigger] ps@[j]),
            orig_params@ == ps@.subrange(1, i as int).map_values(|q: HookParam| bare_of(q)),
            forward_args@ == ps@.subrange(1, i as int).map_values(|q: HookParam| forwarded(q)),
        decreases ps@.len() - i,
    {
        let p = &ps[i];
        orig_params.push(to_bare(p));
        match p {
            HookParam::Typed { pattern: ParamPattern::Ident { name }, .. } => {
                forward_args.push(name.clone());
            },
            _ => {
                proof {
                    assert(binds_ident(ps@[i as int]));
                    assert(false);
                }
            },
        }
        proof {
            assert(ps@.subrange(1, i + 1) =~= ps@.subrange(1, i as int).push(ps@[i as int]));
            assert(orig_params@ =~= ps@.subrange(1, i + 1).map_values(|q: HookParam| bare_of(q)));
            assert(forward_args@ =~= ps@.subrange(1, i + 1).map_values(
                |q: HookParam| forwarded(q),
            ));
        }
        i = i + 1;
    }
    proof {
        assert(ps@.subrange(1, ps@.len() as int) =~= ps@.drop_first());
    }
    let ctor_ident = f.name.clone().concat("_apply");
    Ok(
        HookPlan {
            orig_type_ident,
            orig_params,
            output: clone_opt(&f.output),
            fn_name: f.name.clone(),
            ctor_ident,
            forward_args,
            address: args.address,
            mod_name: clone_opt(&args.name),
        },
    )
}

/// The original-function type's parameters are the hooked function's
/// parameters without the first, in the same order and with the same types;
/// the trampoline forwards exactly those parameters' names, in that order.
pub proof fn law_orig_params_round_trip(args: HookArgs, f: HookFn, p: HookPlan)
    requires
        plan_error(f) is None,
        is_plan(args, f, p),
    ensures
        p.orig_params@.len() == f.params@.len() - 1,
        p.forward_args@.len() == f.params@.len() - 1,
        forall|i: int|
            0 <= i < p.orig_params@.len() ==> match #[trigger] f.params@[i + 1] {
                HookParam::Typed { ty, .. } => p.orig_params@[i].ty == ty,
                HookParam::Receiver => false,
            },
{
    assert forall|i: int| 0 <= i < p.orig_params@.len() implies match #[trigger] f.params@[i + 1] {
        HookParam::Typed { ty, .. } => p.orig_params@[i].ty == ty,
        HookParam::Receiver => false,
    } by {
        assert(f.params@.drop_first()[i] == f.params@[i + 1]);
        assert(p.orig_params@[i] == bare_of(f.params@[i + 1]));
        // A receiver after the first parameter is rejected before planning.
        assert(!is_receiver(f.params@[i + 1]));
    }
}

} // verus!
