//! What the code generator needs to know of a reload-enabled function: which
//! of its two forms to emit, the symbol it is exported under, and the names
//! and types of its arguments for the call through the loaded symbol.
use vstd::prelude::*;

verus! {

/// A parameter of a reload-enabled function, as written in its signature.
pub enum FnParam {
    /// `self`, `&self` or `&mut self`.
    Receiver { reference: bool, mutable: bool },
    /// A typed parameter: its name where the pattern is a plain identifier,
    /// and the source text of its type.
    Typed { name: Option<String>, ty: String },
}

/// The two forms of a reload-enabled function.
#[derive(Clone, Copy, Debug, PartialEq, Eq, Structural)]
pub enum BuildVariant {
    /// The host's form: load the artifact, call its symbol, fall back to the body.
    HostDispatch,
    /// The artifact's form: the body, exported unmangled.
    ArtifactExport,
}

/// The form to emit: the artifact's while the artifact is being built (the
/// build signal is set), the host's otherwise.
pub fn select_variant(signal_set: bool) -> (r: BuildVariant)
    ensures
        r == (if signal_set {
            BuildVariant::ArtifactExport
        } else {
            BuildVariant::HostDispatch
        }),
{
    if signal_set {
        BuildVariant::ArtifactExport
    } else {
        BuildVariant::HostDispatch
    }
}

/// The symbol a function is exported under: its declared name.
pub fn symbol_name(fn_name: &str) -> (r: String)
    ensures
        r@ == fn_name@,
{
    String::from_str(fn_name)
}

/// The source text of a function's return type: `()` where none is written.
pub fn return_type_text(declared: Option<String>) -> (r: String)
    ensures
        match declared {
            Some(t) => r@ == t@,
            None => r@ == "()"@,
        },
{
    match declared {
        Some(t) => t,
        None => String::from_str("()"),
    }
}

/// The names a parameter passes on: `self` for a receiver, the name of a
/// plainly named parameter, none for any other pattern.
pub open spec fn passed_names(p: FnParam) -> Seq<Seq<char>> {
    match p {
        FnParam::Receiver { .. } => seq!["self"@],
        FnParam::Typed { name: Some(n), .. } => seq![n@],
        FnParam::Typed { name: None, .. } => Seq::empty(),
    }
}

/// The argument names of a call that forwards `params`.
pub open spec fn argument_names(params: Seq<FnParam>) -> Seq<Seq<char>>
    decreases params.len(),
{
    if params.len() == 0 {
        Seq::empty()
    } else {
        argument_names(params.drop_last()) + passed_names(params.last())
    }
}

/// The type of a parameter in the signature of the loaded symbol.
pub open spec fn argument_type(p: FnParam) -> Seq<char> {
    match p {
        FnParam::Receiver { reference, mutable } => if reference {
            if mutable {
                "&mut Self"@
            } else {
                "&Self"@
            }
        } else {
            "Self"@
        },
        FnParam::Typed { ty, .. } => ty@,
    }
}

pub open spec fn texts(v: Seq<String>) -> Seq<Seq<char>> {
    v.map_values(|s: String| s@)
}

/// The names under which a call passes `params` on.
pub fn get_argument_names(params: &Vec<FnParam>) -> (r: Vec<String>)
    ensures
        texts(r@) == argument_names(params@),
{
    let mut names: Vec<String> = Vec::new();
    let mut i: usize = 0;
    while i < params.len()
        invariant
            i <= params.len(),
            texts(names@) == argument_names(params@.take(i as int)),
        decreases params.len() - i,
    {
        let ghost before = names@;
        assert(params@.take(i as int + 1).drop_last() =~= params@.take(i as int));
        match &params[i] {
            FnParam::Receiver { .. } => {
                names.push(String::from_str("self"));
            },
            FnParam::Typed { name: Some(n), .. } => {
                names.push(n.clone());
            },
            FnParam::Typed { name: None, .. } => {},
        }
        assert(texts(names@) =~= texts(before) + passed_names(params[i as int]));
        i = i + 1;
    }
    assert(params@.take(params.len() as int) =~= params@);
    names
}

/// The types of `params` in the signature of the loaded symbol.
pub fn get_argument_types(params: &Vec<FnParam>) -> (r: Vec<String>)
    ensures
        r.len() == params.len(),
        forall|i: int| 0 <= i < params.len() ==> r[i]@ == argument_type(#[trigger] params[i]),
{
    let mut types: Vec<String> = Vec::new();
    let mut i: usize = 0;
    while i < params.len()
        invariant
            i <= params.len(),
            types.len() == i,
            forall|j: int| 0 <= j < i ==> types[j]@ == argument_type(#[trigger] params[j]),
        decreases params.len() - i,
    {
        let t = match &params[i] {
            FnParam::Receiver { reference, mutable } => {
                if *reference {
                    if *mutable {
                        String::from_str("&mut Self")
                    } else {
                        String::from_str("&Self")
                    }
                } else {
                    String::from_str("Self")
                }
            },
            FnParam::Typed { ty, .. } => ty.clone(),
        };
        types.push(t);
        i = i + 1;
    }
    types
}

} // verus!
