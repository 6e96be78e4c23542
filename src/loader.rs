//! The artifact loader and fallback executor: every call of a reload-enabled
//! function runs the artifact's copy of it when the artifact can be opened
//! and exports the symbol, and its compiled-in body otherwise.
//!
//! Opening the library and resolving a symbol cross an ABI boundary that
//! only the caller can cross; they come in as a library handle and a
//! resolver. The choice between the two paths, and what is reported, is made
//! here.
use vstd::prelude::*;

use crate::watcher::report_view;

verus! {

/// Why the artifact could not serve a call.
pub enum LoadFailure {
    /// The library at `path` could not be opened.
    Library { path: String, cause: String },
    /// The library at `path` opened but did not give `symbol`.
    Symbol { symbol: String, path: String, cause: String },
}

/// The diagnostic for an artifact that could not be opened.
pub open spec fn library_diagnostic(path: Seq<char>, cause: Seq<char>) -> Seq<char> {
    "Hot reload failed: Couldn't find the shared library at "@ + path + ". Error: "@ + cause
}

/// The diagnostic for a symbol that the artifact does not give.
pub open spec fn symbol_diagnostic(symbol: Seq<char>, path: Seq<char>, cause: Seq<char>) -> Seq<char> {
    "Hot reload failed: Couldn't find the function '"@ + symbol + "' in the shared library ("@ + path
        + "). Error: "@ + cause
}

pub open spec fn failure_text(f: LoadFailure) -> Seq<char> {
    match f {
        LoadFailure::Library { path, cause } => library_diagnostic(path@, cause@),
        LoadFailure::Symbol { symbol, path, cause } => symbol_diagnostic(symbol@, path@, cause@),
    }
}

/// The diagnostic that reports `f`, naming the path tried and the cause.
pub fn diagnostic(f: &LoadFailure) -> (r: String)
    ensures
        r@ == failure_text(*f),
{
    match f {
        LoadFailure::Library { path, cause } => {
            let mut r = String::from_str("Hot reload failed: Couldn't find the shared library at ");
            r.append(path.as_str());
            r.append(". Error: ");
            r.append(cause.as_str());
            r
        },
        LoadFailure::Symbol { symbol, path, cause } => {
            let mut r = String::from_str("Hot reload failed: Couldn't find the function '");
            r.append(symbol.as_str());
            r.append("' in the shared library (");
            r.append(path.as_str());
            r.append("). Error: ");
            r.append(cause.as_str());
            r
        },
    }
}

/// The result of one call, and the diagnostic printed when the fallback ran.
/// The value is the same kind either way, so callers see one result type.
pub struct Invocation<R> {
    pub value: R,
    pub diagnostic: Option<String>,
}

/// One call of a reload-enabled function with arguments `args`.
///
/// `library` is the outcome of opening the artifact at `path`; `resolve`
/// looks `symbol` up in the opened library and hands back the callable.
/// Where the library opened and the symbol resolved, the result is the
/// artifact's; otherwise `fallback` runs on `args` and the diagnostic names
/// the path, and the symbol where that was the failure.
pub fn invoke_call_site<L, F, A, R, P, G>(
    path: &String,
    symbol: &String,
    library: Result<L, String>,
    resolve: P,
    args: A,
    fallback: G,
) -> (r: Invocation<R>) where P: FnOnce(L) -> Result<F, String>, F: FnOnce(A) -> R, G: FnOnce(A) -> R
    requires
        fallback.requires((args,)),
        forall|l: L| #[trigger] resolve.requires((l,)),
        forall|l: L, f: F| #[trigger] resolve.ensures((l,), Ok::<F, String>(f)) ==> f.requires((args,)),
    ensures
        match library {
            Err(cause) => {
                &&& fallback.ensures((args,), r.value)
                &&& report_view(r.diagnostic) == Some(library_diagnostic(path@, cause@))
            },
            Ok(l) => exists|res: Result<F, String>|
                #[trigger] resolve.ensures((l,), res) && match res {
                    Ok(f) => f.ensures((args,), r.value) && r.diagnostic is None,
                    Err(cause) => {
                        &&& fallback.ensures((args,), r.value)
                        &&& report_view(r.diagnostic) == Some(
                            symbol_diagnostic(symbol@, path@, cause@),
                        )
                    },
                },
        },
{
    match library {
        Err(cause) => {
            let value = fallback(args);
            let failure = LoadFailure::Library { path: path.clone(), cause };
            Invocation { value, diagnostic: Some(diagnostic(&failure)) }
        },
        Ok(lib) => {
            let resolved = resolve(lib);
            match resolved {
                Ok(f) => {
                    let value = f(args);
                    Invocation { value, diagnostic: None }
                },
                Err(cause) => {
                    let value = fallback(args);
                    let failure = LoadFailure::Symbol {
                        symbol: symbol.clone(),
                        path: path.clone(),
                        cause,
                    };
                    Invocation { value, diagnostic: Some(diagnostic(&failure)) }
                },
            }
        },
    }
}

} // verus!
