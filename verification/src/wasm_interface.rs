//! The attribute macros that mods written in Rust use to cross the wasm boundary:
//! `wasm_export` names a function that the host may call, `wasm_import` declares
//! a function that the host provides. Here stands what the macros decide: how
//! the attribute's arguments are read and what text the item is wrapped in.
use vstd::prelude::*;
use vstd::string::StringExecFns;

verus! {

/// One token of a macro attribute's arguments, as far as the argument reader
/// looks at it: a literal (with its source text), a punctuation character, or
/// anything else.
#[derive(Debug)]
pub enum AttrToken {
    Literal(String),
    Punct(char),
    Other,
}

/// Why the arguments of `wasm_import` were refused.
#[derive(Debug, PartialEq, Eq, Structural, Clone, Copy)]
pub enum ImportArgsError {
    /// The first argument is neither a literal nor a `,`.
    ImportNameNotString,
    /// A literal import name is followed by something other than `,`.
    ExpectedCommaOrEnd,
    /// The module name is not a literal.
    ModuleNameNotString,
    /// Something follows the module name.
    ExpectedEnd,
}

/// The arguments of `wasm_import`: both optional.
#[derive(Debug)]
pub struct ImportArgs {
    pub import_name: Option<String>,
    pub module_name: Option<String>,
}

/// What `wasm_import` wraps around the declaration it is given: `outer` stands
/// before a brace-delimited block, and inside the block `inner_prefix` stands
/// before the declaration.
#[derive(Debug)]
pub struct ImportExpansion {
    pub outer: String,
    pub inner_prefix: String,
}

pub open spec fn is_literal(t: AttrToken) -> bool {
    t is Literal
}

pub open spec fn is_comma(t: AttrToken) -> bool {
    t matches AttrToken::Punct(c) && c == ','
}

pub open spec fn literal_text(t: AttrToken) -> Seq<char> {
    match t {
        AttrToken::Literal(s) => s@,
        _ => Seq::empty(),
    }
}

pub open spec fn opt_text(o: Option<String>) -> Option<Seq<char>> {
    match o {
        Some(s) => Some(s@),
        None => None,
    }
}

/// What the arguments `t` of `wasm_import` mean: `("import_name", "module_name")`,
/// where either may be left out, and the import name is skipped with a bare `,`.
pub open spec fn import_args_of(t: Seq<AttrToken>) -> Result<
    (Option<Seq<char>>, Option<Seq<char>>),
    ImportArgsError,
> {
    if t.len() == 0 {
        Ok((None, None))
    } else if is_literal(t[0]) && t.len() == 1 {
        Ok((Some(literal_text(t[0])), None))
    } else if is_literal(t[0]) && !is_comma(t[1]) {
        Err(ImportArgsError::ExpectedCommaOrEnd)
    } else if !is_literal(t[0]) && !is_comma(t[0]) {
        Err(ImportArgsError::ImportNameNotString)
    } else {
        // the module name, if any, stands at `p`
        let p: int = if is_literal(t[0]) { 2 } else { 1 };
        let import = if is_literal(t[0]) { Some(literal_text(t[0])) } else { None };
        if t.len() == p {
            Ok((import, None))
        } else if !is_literal(t[p]) {
            Err(ImportArgsError::ModuleNameNotString)
        } else if t.len() > p + 1 {
            Err(ImportArgsError::ExpectedEnd)
        } else {
            Ok((import, Some(literal_text(t[p]))))
        }
    }
}

fn literal_of(t: &AttrToken) -> (r: Option<String>)
    ensures
        r is Some <==> is_literal(*t),
        r matches Some(s) ==> s@ == literal_text(*t),
{
    match t {
        AttrToken::Literal(s) => Some(s.clone()),
        _ => None,
    }
}

fn token_is_comma(t: &AttrToken) -> (r: bool)
    ensures
        r == is_comma(*t),
{
    match t {
        AttrToken::Punct(c) => *c == ',',
        _ => false,
    }
}

/// Reads the arguments of `wasm_import`.
pub fn parse_import_args(t: &Vec<AttrToken>) -> (r: Result<ImportArgs, ImportArgsError>)
    ensures
        match r {
            Ok(a) => import_args_of(t@) == Ok::<_, ImportArgsError>(
                (opt_text(a.import_name), opt_text(a.module_name)),
            ),
            Err(e) => import_args_of(t@) == Err::<(Option<Seq<char>>, Option<Seq<char>>), _>(e),
        },
{
    let n = t.len();
    if n == 0 {
        return Ok(ImportArgs { import_name: None, module_name: None });
    }
    let import_name = literal_of(&t[0]);
    let p: usize;
    match &import_name {
        Some(_) => {
            if n == 1 {
                return Ok(ImportArgs { import_name, module_name: None });
            }
            if !token_is_comma(&t[1]) {
                return Err(ImportArgsError::ExpectedCommaOrEnd);
            }
            p = 2;
        },
        None => {
            if !token_is_comma(&t[0]) {
                return Err(ImportArgsError::ImportNameNotString);
            }
            p = 1;
        },
    }
    if n == p {
        return Ok(ImportArgs { import_name, module_name: None });
    }
    let module_name = literal_of(&t[p]);
    if module_name.is_none() {
        return Err(ImportArgsError::ModuleNameNotString);
    }
    if n > p + 1 {
        return Err(ImportArgsError::ExpectedEnd);
    }
    Ok(ImportArgs { import_name, module_name })
}

/// The documented forms of `wasm_import`'s arguments: none, an import name, an
/// import name and a module name, or a module name after a bare `,`; each reads as
/// the names written, and the expansion always starts with the wasm-only
/// attribute.
pub proof fn law_import_arg_forms(name: AttrToken, module: AttrToken, comma: AttrToken)
    requires
        is_literal(name),
        is_literal(module),
        is_comma(comma),
    ensures
        import_args_of(Seq::empty()) == Ok::<_, ImportArgsError>(
            (None::<Seq<char>>, None::<Seq<char>>),
        ),
        import_args_of(seq![name]) == Ok::<_, ImportArgsError>(
            (Some(literal_text(name)), None::<Seq<char>>),
        ),
        import_args_of(seq![name, comma, module]) == Ok::<_, ImportArgsError>(
            (Some(literal_text(name)), Some(literal_text(module))),
        ),
        import_args_of(seq![comma, module]) == Ok::<_, ImportArgsError>(
            (None::<Seq<char>>, Some(literal_text(module))),
        ),
        forall|m: Option<Seq<char>>| #[trigger]
            import_outer_text(m).take(wasm_only_text().len() as int) == wasm_only_text(),
{
    assert forall|m: Option<Seq<char>>| #[trigger]
        import_outer_text(m).take(wasm_only_text().len() as int) == wasm_only_text() by {
        let rest = match m {
            Some(x) => "#[link(wasm_import_module="@ + x + ")]"@,
            None => Seq::empty(),
        };
        assert(import_outer_text(m) == wasm_only_text() + (rest + "extern \"C\""@));
        assert((wasm_only_text() + (rest + "extern \"C\""@)).take(wasm_only_text().len() as int)
            =~= wasm_only_text());
    }
}

/// The attribute that keeps the declaration off targets other than wasm.
pub open spec fn wasm_only_text() -> Seq<char> {
    "#[cfg(target_family = \"wasm\")]"@
}

/// The text that `wasm_import` puts before the block: the wasm-only attribute,
/// the module's link attribute where a module is named, then `extern "C"`.
pub open spec fn import_outer_text(module_name: Option<Seq<char>>) -> Seq<char> {
    wasm_only_text() + match module_name {
        Some(m) => "#[link(wasm_import_module="@ + m + ")]"@,
        None => Seq::empty(),
    } + "extern \"C\""@
}

/// The text that `wasm_import` puts before the declaration inside the block:
/// the link name where an import name is given.
pub open spec fn import_inner_text(import_name: Option<Seq<char>>) -> Seq<char> {
    match import_name {
        Some(n) => "#[link_name="@ + n + "]"@,
        None => Seq::empty(),
    }
}

fn outer_text(module_name: &Option<String>) -> (r: String)
    ensures
        r@ == import_outer_text(opt_text(*module_name)),
{
    let mut r = String::from_str("#[cfg(target_family = \"wasm\")]");
    match module_name {
        Some(m) => {
            r.append("#[link(wasm_import_module=");
            r.append(m.as_str());
            r.append(")]");
        },
        None => {},
    }
    r.append("extern \"C\"");
    r
}

fn inner_text(import_name: &Option<String>) -> (r: String)
    ensures
        r@ == import_inner_text(opt_text(*import_name)),
{
    match import_name {
        Some(n) => {
            let mut r = String::from_str("#[link_name=");
            r.append(n.as_str());
            r.append("]");
            r
        },
        None => String::new(),
    }
}

/// Reads the arguments of `wasm_import` and gives the text to wrap the
/// declaration in; the arguments are refused exactly as [`import_args_of`] says.
pub fn wasm_import(attr: &Vec<AttrToken>) -> (r: Result<ImportExpansion, ImportArgsError>)
    ensures
        match import_args_of(attr@) {
            Ok((import_name, module_name)) => r matches Ok(x) && x.outer@ == import_outer_text(
                module_name,
            ) && x.inner_prefix@ == import_inner_text(import_name),
            Err(e) => r == Err::<ImportExpansion, _>(e),
        },
{
    match parse_import_args(attr) {
        Ok(args) => {
            let outer = outer_text(&args.module_name);
            let inner_prefix = inner_text(&args.import_name);
            Ok(ImportExpansion { outer, inner_prefix })
        },
        Err(e) => Err(e),
    }
}

/// The text that `wasm_export` puts before the function. With no argument the
/// symbol keeps its own name (`#[no_mangle] pub extern "C"`); with one, the
/// function gets a link name attribute carrying the argument, and the unsafe
/// C ABI (`#[link_name=...] pub unsafe extern "C"`).
pub open spec fn export_text(attr: Seq<char>) -> Seq<char> {
    if attr.len() == 0 {
        "#[no_mangle] pub extern \"C\""@
    } else {
        "#[link_name="@ + attr + "]"@ + "pub unsafe extern \"C\""@
    }
}

/// The text that `wasm_export` puts before the function, given the text of its
/// attribute's arguments (empty where there are none).
pub fn wasm_export(attr: &str) -> (r: String)
    ensures
        r@ == export_text(attr@),
{
    if attr.is_empty() {
        String::from_str("#[no_mangle] pub extern \"C\"")
    } else {
        let mut r = String::from_str("#[link_name=");
        r.append(attr);
        r.append("]");
        r.append("pub unsafe extern \"C\"");
        r
    }
}

/// `wasm_export` carries its argument verbatim: for every nonempty argument the
/// expansion holds it right after `#[link_name=`, different arguments give
/// different expansions, and the `#[no_mangle]` form comes out exactly when the
/// argument is empty.
pub proof fn law_export_carries_name(a: Seq<char>, b: Seq<char>)
    ensures
        a.len() > 0 ==> export_text(a).subrange("#[link_name="@.len() as int, ("#[link_name="@.len() + a.len()) as int) == a,
        a.len() > 0 ==> export_text(a) != export_text(Seq::empty()),
        a != b ==> export_text(a) != export_text(b),
{
    reveal_strlit("#[link_name=");
    reveal_strlit("#[no_mangle] pub extern \"C\"");
    let l = "#[link_name="@;
    let r = "]"@ + "pub unsafe extern \"C\""@;
    if a.len() > 0 {
        assert(export_text(a) == l + a + "]"@ + "pub unsafe extern \"C\""@);
        assert(export_text(a) =~= l + a + r);
        assert((l + a + r).subrange(l.len() as int, (l.len() + a.len()) as int) =~= a);
        assert(export_text(a)[2] == 'l');
        assert(export_text(Seq::empty())[2] == 'n');
    }
    if a != b {
        if a.len() > 0 && b.len() > 0 {
            assert(export_text(a) =~= l + a + r);
            assert(export_text(b) =~= l + b + r);
            if export_text(a) == export_text(b) {
                assert(a.len() == b.len());
                assert((l + a + r).subrange(l.len() as int, (l.len() + a.len()) as int) =~= a);
                assert((l + b + r).subrange(l.len() as int, (l.len() + b.len()) as int) =~= b);
                assert(a =~= b);
            }
        } else if a.len() > 0 {
            assert(b =~= Seq::<char>::empty());
            assert(export_text(a)[2] == 'l');
            assert(export_text(Seq::empty())[2] == 'n');
        } else if b.len() > 0 {
            assert(a =~= Seq::<char>::empty());
            assert(export_text(b)[2] == 'l');
            assert(export_text(Seq::empty())[2] == 'n');
        } else {
            assert(a =~= b);
        }
    }
}

/// `wasm_import` carries the names it reads verbatim: for every import name the
/// text before the declaration holds it right after `#[link_name=` and is empty
/// only where no import name is given; for every module name the text before
/// the block holds it right after the wasm-only attribute and
/// `#[link(wasm_import_module=`; and different names give different texts.
pub proof fn law_import_carries_names(n: Seq<char>, n2: Seq<char>, m: Seq<char>, m2: Seq<char>)
    ensures
        import_inner_text(Some(n)).subrange("#[link_name="@.len() as int, ("#[link_name="@.len() + n.len()) as int) == n,
        import_inner_text(Some(n)).len() > 0,
        import_inner_text(None).len() == 0,
        n != n2 ==> import_inner_text(Some(n)) != import_inner_text(Some(n2)),
        import_outer_text(Some(m)).subrange(
            (wasm_only_text().len() + "#[link(wasm_import_module="@.len()) as int,
            (wasm_only_text().len() + "#[link(wasm_import_module="@.len() + m.len()) as int,
        ) == m,
        import_outer_text(Some(m)) != import_outer_text(None),
        m != m2 ==> import_outer_text(Some(m)) != import_outer_text(Some(m2)),
{
    reveal_strlit("#[link_name=");
    reveal_strlit("#[link(wasm_import_module=");
    let l = "#[link_name="@;
    let c = "]"@;
    assert(import_inner_text(Some(n)) =~= l + n + c);
    assert((l + n + c).subrange(l.len() as int, (l.len() + n.len()) as int) =~= n);
    if n != n2 && import_inner_text(Some(n)) == import_inner_text(Some(n2)) {
        assert(import_inner_text(Some(n2)) =~= l + n2 + c);
        assert(n.len() == n2.len());
        assert((l + n2 + c).subrange(l.len() as int, (l.len() + n2.len()) as int) =~= n2);
        assert(n =~= n2);
    }
    let w = wasm_only_text();
    let k = "#[link(wasm_import_module="@;
    let e = ")]"@ + "extern \"C\""@;
    assert(import_outer_text(Some(m)) =~= w + k + m + e);
    assert(import_outer_text(None) =~= w + "extern \"C\""@);
    assert((w + k + m + e).subrange((w.len() + k.len()) as int, (w.len() + k.len() + m.len()) as int) =~= m);
    assert(import_outer_text(Some(m)).len() > import_outer_text(None).len());
    if m != m2 && import_outer_text(Some(m)) == import_outer_text(Some(m2)) {
        assert(import_outer_text(Some(m2)) =~= w + k + m2 + e);
        assert(m.len() == m2.len());
        assert((w + k + m2 + e).subrange((w.len() + k.len()) as int, (w.len() + k.len() + m2.len()) as int) =~= m2);
        assert(m =~= m2);
    }
}

} // verus!
