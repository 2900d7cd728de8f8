//! Service definitions: the list of RPCs that a service declares, the checks that a definition
//! must pass, and the names generated from it.

use vstd::prelude::*;

verus! {

broadcast use vstd::string::group_string_axioms;

/// One argument of an RPC: its pattern (which must be a plain identifier) and its type.
#[derive(Debug)]
pub struct Arg {
    /// The argument's pattern as written.
    pub name: String,
    /// The argument's type as written.
    pub ty: String,
}

/// One RPC of a service.
#[derive(Debug)]
pub struct Rpc {
    /// The RPC's name as written, possibly a raw identifier such as `r#await`.
    pub name: String,
    /// The RPC's arguments, in order.
    pub args: Vec<Arg>,
    /// The RPC's return type as written, or `None` when it is left out (the unit type).
    pub output: Option<String>,
}

/// Why a service definition is refused.
#[derive(Debug, Clone, Copy, PartialEq, Eq, Structural)]
pub enum ServiceError {
    /// Argument `arg` of RPC `rpc` is a pattern rather than a plain identifier.
    PatternArgument { rpc: usize, arg: usize },
    /// RPC `rpc` is named `new` or `serve`, which conflict with the generated functions
    /// `<Service>Client::new` and `<Service>::serve`.
    ReservedName { rpc: usize },
}

/// `c` is an ASCII lowercase letter.
pub open spec fn is_ascii_lower(c: char) -> bool {
    'a' <= c && c <= 'z'
}

/// `c` is an ASCII uppercase letter.
pub open spec fn is_ascii_upper(c: char) -> bool {
    'A' <= c && c <= 'Z'
}

/// `c` is an ASCII digit.
pub open spec fn is_ascii_digit(c: char) -> bool {
    '0' <= c && c <= '9'
}

/// `c` is outside ASCII.
pub open spec fn is_non_ascii(c: char) -> bool {
    (c as u32) >= 128
}

/// The characters that `char::to_uppercase` yields for `c`.
pub uninterp spec fn unicode_uppercase(c: char) -> Seq<char>;

/// The characters that `char::to_lowercase` yields for `c`.
pub uninterp spec fn unicode_lowercase(c: char) -> Seq<char>;

/// `c` in upper case: ASCII letters are shifted, other ASCII characters are kept, and other
/// characters follow Unicode.
pub open spec fn upper_of(c: char) -> Seq<char> {
    if is_ascii_lower(c) {
        seq![((c as u32) - 32) as char]
    } else if !is_non_ascii(c) {
        seq![c]
    } else {
        unicode_uppercase(c)
    }
}

/// `c` in lower case: ASCII letters are shifted, other ASCII characters are kept, and other
/// characters follow Unicode.
pub open spec fn lower_of(c: char) -> Seq<char> {
    if is_ascii_upper(c) {
        seq![((c as u32) + 32) as char]
    } else if !is_non_ascii(c) {
        seq![c]
    } else {
        unicode_lowercase(c)
    }
}

/// The camel-case form of the snake-case text `s`: underscores are dropped, the first character
/// of each word is upper-cased and every other character lower-cased. `word_start` says whether
/// the first character of `s` starts a word.
pub open spec fn camel_case(s: Seq<char>, word_start: bool) -> Seq<char>
    decreases s.len(),
{
    if s.len() == 0 {
        seq![]
    } else if s[0] == '_' {
        camel_case(s.drop_first(), true)
    } else if word_start {
        upper_of(s[0]) + camel_case(s.drop_first(), false)
    } else {
        lower_of(s[0]) + camel_case(s.drop_first(), false)
    }
}

/// `s` without the `r#` prefix of a raw identifier.
pub open spec fn unraw(s: Seq<char>) -> Seq<char> {
    if s.len() >= 2 && s[0] == 'r' && s[1] == '#' {
        s.skip(2)
    } else {
        s
    }
}

/// `c` may start an identifier.
pub open spec fn is_ident_start(c: char) -> bool {
    c == '_' || is_ascii_lower(c) || is_ascii_upper(c) || is_non_ascii(c)
}

/// `c` may continue an identifier.
pub open spec fn is_ident_continue(c: char) -> bool {
    is_ident_start(c) || is_ascii_digit(c)
}

/// `s` is a plain identifier, possibly raw; the wildcard `_` is not one.
pub open spec fn is_plain_identifier(s: Seq<char>) -> bool {
    let t = unraw(s);
    &&& t.len() > 0
    &&& is_ident_start(t[0])
    &&& forall|i: int| 1 <= i < t.len() ==> is_ident_continue(#[trigger] t[i])
    &&& t != seq!['_']
}

/// Every snake-case or camel-case name is a plain identifier: a non-empty text other than `_`
/// that starts with an ASCII letter or `_` and goes on with ASCII letters, digits and `_`.
pub proof fn law_ascii_names_are_identifiers(s: Seq<char>)
    requires
        s.len() > 0,
        s != seq!['_'],
        s[0] == '_' || ('a' <= s[0] && s[0] <= 'z') || ('A' <= s[0] && s[0] <= 'Z'),
        forall|i: int|
            0 <= i < s.len() ==> (#[trigger] s[i] == '_' || ('a' <= s[i] && s[i] <= 'z') || ('A'
                <= s[i] && s[i] <= 'Z') || ('0' <= s[i] && s[i] <= '9')),
    ensures
        is_plain_identifier(s),
{
    if s.len() >= 2 {
        assert(s[1] != '#');
    }
    assert(unraw(s) == s);
}

/// A plain identifier followed by an ASCII letter, digit or `_` is still a plain identifier.
pub proof fn law_identifier_continues(s: Seq<char>, c: char)
    requires
        is_plain_identifier(s),
        c == '_' || ('a' <= c && c <= 'z') || ('A' <= c && c <= 'Z') || ('0' <= c && c <= '9'),
    ensures
        is_plain_identifier(s.push(c)),
{
    let t = unraw(s);
    if s.len() >= 2 && s[0] == 'r' && s[1] == '#' {
        assert(unraw(s.push(c)) =~= t.push(c));
    } else {
        if s.len() == 1 {
            assert(s.push(c)[1] == c);
        }
        assert(unraw(s.push(c)) == s.push(c));
    }
    let u = unraw(s.push(c));
    assert(u =~= t.push(c));
    assert(u.len() >= 2);
    assert(forall|i: int| 1 <= i < u.len() ==> is_ident_continue(#[trigger] u[i])) by {
        assert forall|i: int| 1 <= i < u.len() implies is_ident_continue(#[trigger] u[i]) by {
            if i < t.len() {
                assert(u[i] == t[i]);
            }
        }
    }
    assert(u != seq!['_']) by {
        assert(u.len() != 1);
    }
}

/// A plain identifier holds no ASCII punctuation or space: after the optional `r#` prefix, each of
/// its characters is an ASCII letter, digit or `_`, or lies outside ASCII, and the first is not
/// a digit.
pub proof fn law_identifier_characters(s: Seq<char>, i: int)
    requires
        is_plain_identifier(s),
        0 <= i < unraw(s).len(),
    ensures
        unraw(s)[i] == '_' || ('a' <= unraw(s)[i] && unraw(s)[i] <= 'z') || ('A' <= unraw(s)[i]
            && unraw(s)[i] <= 'Z') || ('0' <= unraw(s)[i] && unraw(s)[i] <= '9') || (unraw(s)[i]
            as u32) >= 128,
        !('0' <= unraw(s)[0] && unraw(s)[0] <= '9'),
{
    if i >= 1 {
        assert(is_ident_continue(unraw(s)[i]));
    }
}

/// Changing case changes only letters: every ASCII character that is not a letter (a digit,
/// `_`, punctuation) is kept as it is, by both the upper- and the lower-casing.
pub proof fn law_case_keeps_non_letters(c: char)
    requires
        (c as u32) < 128,
        !('a' <= c && c <= 'z'),
        !('A' <= c && c <= 'Z'),
    ensures
        lower_of(c) == seq![c],
        upper_of(c) == seq![c],
{
}

/// Changing case maps each ASCII letter to the same letter of the other case, one character for
/// one: `A`..`Z` and `a`..`z` are 32 apart.
pub proof fn law_case_swaps_ascii_letters(c: char)
    requires
        (c as u32) < 128,
    ensures
        ('A' <= c && c <= 'Z') ==> lower_of(c).len() == 1 && lower_of(c)[0] as u32 == c as u32
            + 32 && 'a' <= lower_of(c)[0] <= 'z',
        ('a' <= c && c <= 'z') ==> upper_of(c).len() == 1 && upper_of(c)[0] as u32 + 32 == c as u32
            && 'A' <= upper_of(c)[0] <= 'Z',
        lower_of(c).len() == 1 && upper_of(c).len() == 1,
{
}

/// Camel-casing keeps digits: the camel case of a text made of ASCII digits is the text itself.
pub proof fn law_camel_case_keeps_digits(s: Seq<char>, word_start: bool)
    requires
        forall|i: int|
            0 <= i < s.len() ==> (#[trigger] s[i] as u32) < 128 && '0' <= s[i] && s[i] <= '9',
    ensures
        camel_case(s, word_start) == s,
    decreases s.len(),
{
    if s.len() > 0 {
        assert((s[0] as u32) < 128);
        law_case_keeps_non_letters(s[0]);
        law_camel_case_keeps_digits(s.drop_first(), false);
        assert(s =~= seq![s[0]] + s.drop_first());
    }
}

/// Camel-casing keeps a digit in place: the camel case of a text followed by a digit is the camel
/// case of the text followed by that digit, wherever the digit stands in a word.
pub proof fn law_camel_case_keeps_trailing_digit(s: Seq<char>, word_start: bool, d: char)
    requires
        '0' <= d && d <= '9',
    ensures
        camel_case(s.push(d), word_start) == camel_case(s, word_start).push(d),
    decreases s.len(),
{
    assert((d as u32) < 128);
    law_case_keeps_non_letters(d);
    if s.len() == 0 {
        assert(s.push(d).drop_first() =~= Seq::<char>::empty());
        assert(camel_case(Seq::<char>::empty(), false) == Seq::<char>::empty());
        assert(camel_case(s.push(d), word_start) =~= seq![d]);
    } else {
        assert(s.push(d).drop_first() =~= s.drop_first().push(d));
        assert(s.push(d)[0] == s[0]);
        if s[0] == '_' {
            law_camel_case_keeps_trailing_digit(s.drop_first(), true, d);
        } else {
            law_camel_case_keeps_trailing_digit(s.drop_first(), false, d);
            if word_start {
                assert(camel_case(s.push(d), word_start) =~= upper_of(s[0]) + camel_case(
                    s.drop_first(),
                    false,
                ).push(d));
            } else {
                assert(camel_case(s.push(d), word_start) =~= lower_of(s[0]) + camel_case(
                    s.drop_first(),
                    false,
                ).push(d));
            }
        }
    }
}

/// The name `new`.
pub open spec fn name_new() -> Seq<char> {
    seq!['n', 'e', 'w']
}

/// The name `serve`.
pub open spec fn name_serve() -> Seq<char> {
    seq!['s', 'e', 'r', 'v', 'e']
}

/// The RPC's name conflicts with a generated function.
pub open spec fn is_reserved(name: Seq<char>) -> bool {
    name == name_new() || name == name_serve()
}

/// Every argument of `rpc` is a plain identifier.
pub open spec fn args_ok(rpc: Rpc) -> bool {
    forall|j: int| 0 <= j < rpc.args@.len() ==> is_plain_identifier(#[trigger] rpc.args@[j].name@)
}

/// Appends `c` to `s` with `String::push`.
///
/// Claims, as `String::push` documents, that `c` is added at the end.
#[verifier::external_body]
fn push_char(s: &mut String, c: char)
    ensures
        final(s)@ == old(s)@.push(c),
{
    s.push(c)
}

/// The characters of `c.to_uppercase()`, collected with `Iterator::collect`.
///
/// Claims that they are `unicode_uppercase(c)`, a name for what `char::to_uppercase` yields.
#[verifier::external_body]
fn unicode_upper(c: char) -> (r: Vec<char>)
    ensures
        r@ == unicode_uppercase(c),
{
    c.to_uppercase().collect()
}

/// The characters of `c.to_lowercase()`, collected with `Iterator::collect`.
///
/// Claims that they are `unicode_lowercase(c)`, a name for what `char::to_lowercase` yields.
#[verifier::external_body]
fn unicode_lower(c: char) -> (r: Vec<char>)
    ensures
        r@ == unicode_lowercase(c),
{
    c.to_lowercase().collect()
}

/// The characters of `s`.
fn chars_of(s: &str) -> (v: Vec<char>)
    ensures
        v@ == s@,
{
    let n = s.unicode_len();
    let mut v: Vec<char> = Vec::new();
    let mut i: usize = 0;
    while i < n
        invariant
            n == s@.len(),
            i <= n,
            v@ == s@.take(i as int),
        decreases n - i,
    {
        let c = s.get_char(i);
        v.push(c);
        i = i + 1;
        assert(v@ =~= s@.take(i as int));
    }
    assert(v@ =~= s@);
    v
}

/// `c` in upper case.
fn upper(c: char) -> (r: Vec<char>)
    ensures
        r@ == upper_of(c),
{
    if 'a' <= c && c <= 'z' {
        let u: u8 = (c as u8) - 32;
        let mut r: Vec<char> = Vec::new();
        r.push(u as char);
        r
    } else if (c as u32) < 128 {
        let mut r: Vec<char> = Vec::new();
        r.push(c);
        r
    } else {
        unicode_upper(c)
    }
}

/// `c` in lower case.
fn lower(c: char) -> (r: Vec<char>)
    ensures
        r@ == lower_of(c),
{
    if 'A' <= c && c <= 'Z' {
        let l: u8 = (c as u8) + 32;
        let mut r: Vec<char> = Vec::new();
        r.push(l as char);
        r
    } else if (c as u32) < 128 {
        let mut r: Vec<char> = Vec::new();
        r.push(c);
        r
    } else {
        unicode_lower(c)
    }
}

/// Appends every character of `cs` to `out`.
fn push_all(out: &mut String, cs: &Vec<char>)
    ensures
        final(out)@ == old(out)@ + cs@,
{
    let mut i: usize = 0;
    while i < cs.len()
        invariant
            i <= cs@.len(),
            out@ == old(out)@ + cs@.take(i as int),
        decreases cs.len() - i,
    {
        push_char(out, cs[i]);
        i = i + 1;
        assert(out@ =~= old(out)@ + cs@.take(i as int));
    }
    assert(cs@.take(cs@.len() as int) =~= cs@);
}

/// Appends the camel-case form of `cs[start..]` to `out`.
fn push_camel_case(out: &mut String, cs: &Vec<char>, start: usize)
    requires
        start <= cs@.len(),
    ensures
        final(out)@ == old(out)@ + camel_case(cs@.skip(start as int), true),
{
    let mut i: usize = start;
    let mut word_start = true;
    while i < cs.len()
        invariant
            start <= i <= cs@.len(),
            old(out)@ + camel_case(cs@.skip(start as int), true) == out@ + camel_case(
                cs@.skip(i as int),
                word_start,
            ),
        decreases cs.len() - i,
    {
        let c = cs[i];
        let ghost rest = cs@.skip(i as int);
        assert(rest.drop_first() =~= cs@.skip(i + 1));
        assert(rest[0] == c);
        if c == '_' {
            word_start = true;
        } else {
            let cased = if word_start {
                upper(c)
            } else {
                lower(c)
            };
            let ghost before = out@;
            push_all(out, &cased);
            assert(before + (cased@ + camel_case(rest.drop_first(), false)) =~= out@ + camel_case(
                rest.drop_first(),
                false,
            ));
            word_start = false;
        }
        i = i + 1;
    }
    assert(cs@.skip(i as int) =~= Seq::<char>::empty());
    assert(out@ + camel_case(cs@.skip(i as int), word_start) =~= out@);
}

/// The number of leading characters that mark `cs` as a raw identifier: 2 for `r#`, else 0.
fn raw_prefix_len(cs: &Vec<char>) -> (n: usize)
    ensures
        n <= cs@.len(),
        unraw(cs@) == cs@.skip(n as int),
{
    if cs.len() >= 2 && cs[0] == 'r' && cs[1] == '#' {
        2
    } else {
        assert(cs@.skip(0) =~= cs@);
        0
    }
}

/// Converts snake-case text to camel case: `two_part` becomes `TwoPart`. Underscores are
/// dropped; the first character of each word is upper-cased and the others lower-cased.
pub fn snake_to_camel(s: &str) -> (camel: String)
    ensures
        camel@ == camel_case(s@, true),
{
    let cs = chars_of(s);
    let mut out = String::new();
    assert(cs@.skip(0) =~= cs@);
    push_camel_case(&mut out, &cs, 0);
    assert(out@ =~= camel_case(s@, true));
    out
}

/// The name of the future type generated for the RPC named `rpc_name`: the camel-case form of
/// the name, raw prefix removed, followed by `Fut`. For `two_part` it is `TwoPartFut`; for
/// `r#await` it is `AwaitFut`.
pub fn future_type_name(rpc_name: &str) -> (name: String)
    ensures
        name@ == camel_case(unraw(rpc_name@), true) + seq!['F', 'u', 't'],
{
    let cs = chars_of(rpc_name);
    let start = raw_prefix_len(&cs);
    let mut out = String::new();
    push_camel_case(&mut out, &cs, start);
    push_char(&mut out, 'F');
    push_char(&mut out, 'u');
    push_char(&mut out, 't');
    assert(out@ =~= camel_case(unraw(rpc_name@), true) + seq!['F', 'u', 't']);
    out
}

/// Whether `c` may start an identifier.
fn ident_start(c: char) -> (b: bool)
    ensures
        b == is_ident_start(c),
{
    c == '_' || ('a' <= c && c <= 'z') || ('A' <= c && c <= 'Z') || (c as u32) >= 128
}

/// Whether the text `s` is a plain identifier, possibly raw.
pub fn is_identifier(s: &str) -> (b: bool)
    ensures
        b == is_plain_identifier(s@),
{
    let cs = chars_of(s);
    let start = raw_prefix_len(&cs);
    let ghost t = unraw(s@);
    if start >= cs.len() {
        return false;
    }
    if !ident_start(cs[start]) {
        return false;
    }
    if cs.len() - start == 1 && cs[start] == '_' {
        assert(t =~= seq!['_']);
        return false;
    }
    let mut i: usize = start + 1;
    while i < cs.len()
        invariant
            start < i <= cs@.len(),
            t == cs@.skip(start as int),
            t == unraw(s@),
            forall|k: int| 1 <= k < i - start ==> is_ident_continue(#[trigger] t[k]),
        decreases cs.len() - i,
    {
        let c = cs[i];
        if !(ident_start(c) || ('0' <= c && c <= '9')) {
            assert(!is_ident_continue(t[i - start]));
            return false;
        }
        i = i + 1;
    }
    assert(t != seq!['_']) by {
        if t.len() == 1 {
            assert(t[0] == cs[start as int]);
        }
    }
    true
}

/// Whether the RPC name `name` conflicts with a generated function.
pub fn is_reserved_name(name: &str) -> (b: bool)
    ensures
        b == is_reserved(name@),
{
    let cs = chars_of(name);
    let is_new = cs.len() == 3 && cs[0] == 'n' && cs[1] == 'e' && cs[2] == 'w';
    let is_serve = cs.len() == 5 && cs[0] == 's' && cs[1] == 'e' && cs[2] == 'r' && cs[3] == 'v'
        && cs[4] == 'e';
    assert(is_new ==> cs@ =~= name_new());
    assert(is_serve ==> cs@ =~= name_serve());
    is_new || is_serve
}

impl Rpc {
    /// The RPC's return type: the one written, or `()` when it is left out.
    pub fn output_type(&self) -> (ty: String)
        ensures
            match self.output {
                Some(t) => ty@ == t@,
                None => ty@ == seq!['(', ')'],
            },
    {
        match &self.output {
            Some(t) => t.clone(),
            None => {
                let mut ty = String::new();
                push_char(&mut ty, '(');
                push_char(&mut ty, ')');
                assert(ty@ =~= seq!['(', ')']);
                ty
            },
        }
    }
}

/// Checks a service definition. It is refused at the first argument that is a pattern rather
/// than a plain identifier, in order of RPCs and then of arguments; failing that, at the first
/// RPC named `new` or `serve`.
pub fn check_service(rpcs: &Vec<Rpc>) -> (r: Result<(), ServiceError>)
    ensures
        match r {
            Err(ServiceError::PatternArgument { rpc, arg }) => {
                &&& rpc < rpcs@.len()
                &&& arg < rpcs@[rpc as int].args@.len()
                &&& !is_plain_identifier(rpcs@[rpc as int].args@[arg as int].name@)
                &&& forall|k: int| 0 <= k < rpc ==> args_ok(#[trigger] rpcs@[k])
                &&& forall|k: int|
                    0 <= k < arg ==> is_plain_identifier(
                        #[trigger] rpcs@[rpc as int].args@[k].name@,
                    )
            },
            Err(ServiceError::ReservedName { rpc }) => {
                &&& forall|k: int| 0 <= k < rpcs@.len() ==> args_ok(#[trigger] rpcs@[k])
                &&& rpc < rpcs@.len()
                &&& is_reserved(rpcs@[rpc as int].name@)
                &&& forall|k: int| 0 <= k < rpc ==> !is_reserved(#[trigger] rpcs@[k].name@)
            },
            Ok(()) => {
                &&& forall|k: int| 0 <= k < rpcs@.len() ==> args_ok(#[trigger] rpcs@[k])
                &&& forall|k: int| 0 <= k < rpcs@.len() ==> !is_reserved(#[trigger] rpcs@[k].name@)
            },
        },
{
    let mut i: usize = 0;
    while i < rpcs.len()
        invariant
            i <= rpcs@.len(),
            forall|k: int| 0 <= k < i ==> args_ok(#[trigger] rpcs@[k]),
        decreases rpcs.len() - i,
    {
        let rpc = &rpcs[i];
        let mut j: usize = 0;
        while j < rpc.args.len()
            invariant
                i < rpcs@.len(),
                *rpc == rpcs@[i as int],
                forall|k: int| 0 <= k < i ==> args_ok(#[trigger] rpcs@[k]),
                j <= rpc.args@.len(),
                forall|k: int| 0 <= k < j ==> is_plain_identifier(#[trigger] rpc.args@[k].name@),
            decreases rpc.args.len() - j,
        {
            if !is_identifier(rpc.args[j].name.as_str()) {
                return Err(ServiceError::PatternArgument { rpc: i, arg: j });
            }
            j = j + 1;
        }
        i = i + 1;
    }
    let mut i: usize = 0;
    while i < rpcs.len()
        invariant
            i <= rpcs@.len(),
            forall|k: int| 0 <= k < rpcs@.len() ==> args_ok(#[trigger] rpcs@[k]),
            forall|k: int| 0 <= k < i ==> !is_reserved(#[trigger] rpcs@[k].name@),
        decreases rpcs.len() - i,
    {
        if is_reserved_name(rpcs[i].name.as_str()) {
            return Err(ServiceError::ReservedName { rpc: i });
        }
        i = i + 1;
    }
    Ok(())
}

} // verus!
