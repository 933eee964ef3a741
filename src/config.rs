//! Resolution of the user's overrides (`lsp.serverPath`, `lsp.serverArgs`)
//! from the initialization options.
use vstd::prelude::*;
use crate::json::Json;
use crate::launch::strings_view;

verus! {

/// What the user asked for: a server of their own, or the default server with
/// perhaps an argument list of their own.
#[derive(Debug, Clone, PartialEq, Eq)]
pub enum ResolvedConfig {
    /// Launch `server_path` directly; no package is fetched.
    FullOverride { server_path: String, args_override: Option<Vec<String>> },
    /// Launch the default server.
    UseDefaults { args_override: Option<Vec<String>> },
}

/// The characters of each string of an optional list.
pub open spec fn opt_strings_view(o: Option<Vec<String>>) -> Option<Seq<Seq<char>>> {
    match o {
        Some(v) => Some(strings_view(v@)),
        None => None,
    }
}

impl View for ResolvedConfig {
    /// The server path of a full override, if any, and the argument override.
    type V = (Option<Seq<char>>, Option<Seq<Seq<char>>>);

    open spec fn view(&self) -> Self::V {
        match self {
            ResolvedConfig::FullOverride { server_path, args_override } => (
                Some(server_path@),
                opt_strings_view(*args_override),
            ),
            ResolvedConfig::UseDefaults { args_override } => (
                None,
                opt_strings_view(*args_override),
            ),
        }
    }
}

/// The string items of `items`, in order; other items are left out.
pub open spec fn string_items(items: Seq<Json>) -> Seq<Seq<char>>
    decreases items.len(),
{
    if items.len() == 0 {
        seq![]
    } else {
        let rest = string_items(items.drop_last());
        match items.last() {
            Json::Str(s) => rest.push(s@),
            _ => rest,
        }
    }
}

/// The `lsp` member of the options.
pub open spec fn lsp_section(options: Option<Json>) -> Option<Json> {
    match options {
        Some(o) => o.spec_get("lsp"@),
        None => None,
    }
}

/// The argument override: the string items of a non-empty `lsp.serverArgs`
/// array; an absent, empty or non-array value overrides nothing.
pub open spec fn args_override_spec(options: Option<Json>) -> Option<Seq<Seq<char>>> {
    match lsp_section(options) {
        Some(lsp) => match lsp.spec_get("serverArgs"@) {
            Some(Json::Array(items)) => if items@.len() > 0 {
                Some(string_items(items@))
            } else {
                None
            },
            _ => None,
        },
        None => None,
    }
}

/// The server path: a non-empty string at `lsp.serverPath`.
pub open spec fn server_path_spec(options: Option<Json>) -> Option<Seq<char>> {
    match lsp_section(options) {
        Some(lsp) => match lsp.spec_get("serverPath"@) {
            Some(Json::Str(s)) => if s@.len() > 0 {
                Some(s@)
            } else {
                None
            },
            _ => None,
        },
        None => None,
    }
}

/// The resolution of the options, as a value of the view of `ResolvedConfig`.
pub open spec fn resolve_spec(options: Option<Json>) -> (Option<Seq<char>>, Option<Seq<Seq<char>>>) {
    (server_path_spec(options), args_override_spec(options))
}

/// The string items of an array, in order.
pub fn collect_strings(items: &Vec<Json>) -> (r: Vec<String>)
    ensures
        strings_view(r@) == string_items(items@),
{
    let mut r: Vec<String> = Vec::new();
    let mut i: usize = 0;
    while i < items.len()
        invariant
            i <= items@.len(),
            strings_view(r@) == string_items(items@.take(i as int)),
        decreases items@.len() - i,
    {
        assert(items@.take(i + 1).drop_last() =~= items@.take(i as int));
        assert(items@.take(i + 1).last() == items@[i as int]);
        match &items[i] {
            Json::Str(s) => {
                r.push(s.clone());
                assert(strings_view(r@) =~= string_items(items@.take(i as int)).push(s@));
            },
            _ => {},
        }
        i = i + 1;
    }
    assert(items@.take(items@.len() as int) =~= items@);
    r
}

/// Resolves the overrides in the initialization options. A non-empty
/// `lsp.serverPath` string gives a full override; a non-empty `lsp.serverArgs`
/// array gives its string items as the argument list in either case.
pub fn resolve(options: &Option<Json>) -> (r: ResolvedConfig)
    ensures
        r@ == resolve_spec(*options),
{
    let mut args_override: Option<Vec<String>> = None;
    let mut server_path: Option<String> = None;
    if let Some(o) = options {
        if let Some(lsp) = o.get("lsp") {
            if let Some(Json::Array(items)) = lsp.get("serverArgs") {
                if items.len() > 0 {
                    args_override = Some(collect_strings(items));
                }
            }
            if let Some(Json::Str(s)) = lsp.get("serverPath") {
                if s.unicode_len() > 0 {
                    server_path = Some(s.clone());
                }
            }
        }
    }
    match server_path {
        Some(p) => ResolvedConfig::FullOverride { server_path: p, args_override },
        None => ResolvedConfig::UseDefaults { args_override },
    }
}

/// The argument list that is launched: the override if there is one, else the defaults.
pub open spec fn effective_args_spec(
    defaults: Seq<Seq<char>>,
    args_override: Option<Seq<Seq<char>>>,
) -> Seq<Seq<char>> {
    match args_override {
        Some(a) => a,
        None => defaults,
    }
}

/// Resolving the same options twice gives the same configuration.
pub proof fn lemma_resolve_idempotent(options: Option<Json>, r1: ResolvedConfig, r2: ResolvedConfig)
    requires
        r1@ == resolve_spec(options),
        r2@ == resolve_spec(options),
    ensures
        r1@ == r2@,
{
}

} // verus!
