//! The specifier registry: recognized textual prefixes, argument-handling
//! modes, and the parser that turns specifier text into a typed specifier.
//!
//! Specifier text is handled as raw bytes, as a Unix path or command-line
//! argument arrives.  The table:
//!
//! | text                | specifier     | argument            |
//! |---------------------|---------------|---------------------|
//! | `-`, `stdio:`, `inetd:` | [`Stdio`]  | none                |
//! | `open-async:` + path    | [`OpenAsync`] | filesystem path   |
//! | `open-fd:` + number     | [`OpenFdAsync`] | signed 32-bit descriptor |
//!
//! The console forms take no argument, so they must match exactly; the
//! other two take everything after the prefix as their argument.

use crate::specifier::{
    OpenAsync, OpenFdAsync, PeerConstructor, SpecEndpointRequest, SpecPeerConstructor,
    Specifier, Stdio,
};
use vstd::prelude::*;

verus! {

/// The one-character console form.
pub open spec fn dash_text() -> Seq<u8> {
    seq!['-' as u8]
}

/// The named console form.
pub open spec fn stdio_text() -> Seq<u8> {
    seq!['s' as u8, 't' as u8, 'd' as u8, 'i' as u8, 'o' as u8, ':' as u8]
}

/// The console form used when the process is started by a socket
/// supervisor.
pub open spec fn inetd_text() -> Seq<u8> {
    seq!['i' as u8, 'n' as u8, 'e' as u8, 't' as u8, 'd' as u8, ':' as u8]
}

/// The prefix selecting the file endpoint; the rest of the text is the
/// path.
pub open spec fn open_async_prefix_text() -> Seq<u8> {
    seq![
        'o' as u8, 'p' as u8, 'e' as u8, 'n' as u8, '-' as u8, 'a' as u8, 's' as u8,
        'y' as u8, 'n' as u8, 'c' as u8, ':' as u8,
    ]
}

/// The prefix selecting the descriptor endpoint; the rest of the text is
/// the descriptor number.
pub open spec fn open_fd_prefix_text() -> Seq<u8> {
    seq![
        'o' as u8, 'p' as u8, 'e' as u8, 'n' as u8, '-' as u8, 'f' as u8, 'd' as u8,
        ':' as u8,
    ]
}

/// `p` is an initial segment of `t`.
pub open spec fn spec_has_prefix(t: Seq<u8>, p: Seq<u8>) -> bool {
    p.len() <= t.len() && t.subrange(0, p.len() as int) == p
}

/// The byte is a decimal digit.
pub open spec fn is_ascii_digit(b: u8) -> bool {
    '0' as u8 <= b && b <= '9' as u8
}

/// Every byte of `t` is a decimal digit.
pub open spec fn all_digits(t: Seq<u8>) -> bool {
    forall|i: int| 0 <= i < t.len() ==> is_ascii_digit(t[i])
}

/// The value of a sequence of decimal digits, most significant first.
/// Leading zeros are allowed and do not change the value.
pub open spec fn digits_value(t: Seq<u8>) -> int
    decreases t.len(),
{
    if t.len() == 0 {
        0
    } else {
        digits_value(t.drop_last()) * 10 + (t.last() - ('0' as u8))
    }
}

/// The text has the shape of a signed decimal integer: an optional single
/// `+` or `-` sign followed by at least one digit and nothing else.
pub open spec fn spec_i32_shape(t: Seq<u8>) -> bool {
    if t.len() == 0 {
        false
    } else if t[0] == '+' as u8 || t[0] == '-' as u8 {
        t.len() > 1 && all_digits(t.subrange(1, t.len() as int))
    } else {
        all_digits(t)
    }
}

/// The signed value of a well-shaped decimal integer text.
pub open spec fn spec_i32_value(t: Seq<u8>) -> int
    recommends
        spec_i32_shape(t),
{
    if t.len() > 0 && t[0] == '-' as u8 {
        -digits_value(t.subrange(1, t.len() as int))
    } else if t.len() > 0 && t[0] == '+' as u8 {
        digits_value(t.subrange(1, t.len() as int))
    } else {
        digits_value(t)
    }
}

/// What parsing the text as a signed 32-bit integer yields: its value when
/// the shape is right and the value fits, nothing otherwise.
pub open spec fn spec_parse_i32(t: Seq<u8>) -> Option<int> {
    if spec_i32_shape(t) && -0x8000_0000 <= spec_i32_value(t) <= 0x7fff_ffff {
        Some(spec_i32_value(t))
    } else {
        None
    }
}

/// A digit sequence never has a negative value.
proof fn lemma_digits_value_nonneg(t: Seq<u8>)
    requires
        all_digits(t),
    ensures
        digits_value(t) >= 0,
    decreases t.len(),
{
    if t.len() > 0 {
        assert(all_digits(t.drop_last()));
        lemma_digits_value_nonneg(t.drop_last());
    }
}

/// Appending a digit multiplies the value by ten and adds the digit.
proof fn lemma_digits_value_push(t: Seq<u8>, b: u8)
    ensures
        digits_value(t.push(b)) == digits_value(t) * 10 + (b - ('0' as u8)),
{
    assert(t.push(b).drop_last() =~= t);
    assert(t.push(b).last() == b);
}

/// A digit sequence is worth at least as much as any of its initial
/// segments: the digits that follow only scale the value up.
proof fn lemma_digits_value_prefix_le(t: Seq<u8>, i: int)
    requires
        all_digits(t),
        0 <= i <= t.len(),
    ensures
        digits_value(t.subrange(0, i)) <= digits_value(t),
    decreases t.len() - i,
{
    if i == t.len() {
        assert(t.subrange(0, i) =~= t);
    } else {
        let shorter = t.subrange(0, i);
        let longer = t.subrange(0, i + 1);
        assert(longer =~= shorter.push(t[i]));
        lemma_digits_value_push(shorter, t[i]);
        assert(all_digits(shorter));
        lemma_digits_value_nonneg(shorter);
        assert(digits_value(shorter) <= digits_value(shorter) * 10 + (t[i] - ('0' as u8)))
            by (nonlinear_arith)
            requires
                digits_value(shorter) >= 0,
                is_ascii_digit(t[i]),
        {};
        lemma_digits_value_prefix_le(t, i + 1);
    }
}

/// Parse the whole text as a signed 32-bit decimal integer: an optional
/// `+` or `-` sign, then one or more digits.  Yields the value exactly when
/// the shape is right and the value fits; leading zeros are accepted.
pub fn parse_i32(t: &[u8]) -> (r: Option<i32>)
    ensures
        match r {
            Some(v) => spec_parse_i32(t@) == Some(v as int),
            None => spec_parse_i32(t@) is None,
        },
{
    if t.len() == 0 {
        return None;
    }
    let first: u8 = t[0];
    let negative: bool;
    let mut i: usize;
    if first == '+' as u8 || first == '-' as u8 {
        if t.len() == 1 {
            return None;
        }
        negative = first == '-' as u8;
        i = 1;
    } else {
        negative = false;
        i = 0;
    }
    let ghost start: int = i as int;
    let ghost digits_all: Seq<u8> = t@.subrange(start, t@.len() as int);
    let limit: u32 = if negative {
        0x8000_0000
    } else {
        0x7fff_ffff
    };
    let mut acc: u32 = 0;
    while i < t.len()
        invariant
            start <= i as int <= t@.len(),
            start == 0 || start == 1,
            t@.len() >= 1,
            start == 1 ==> t@.len() >= 2,
            start == 1 <==> (t@[0] == '+' as u8 || t@[0] == '-' as u8),
            negative <==> t@[0] == '-' as u8,
            digits_all == t@.subrange(start, t@.len() as int),
            all_digits(t@.subrange(start, i as int)),
            acc == digits_value(t@.subrange(start, i as int)),
            acc <= limit,
            limit == if negative {
                0x8000_0000u32
            } else {
                0x7fff_ffffu32
            },
        decreases t@.len() - i,
    {
        let b: u8 = t[i];
        if !('0' as u8 <= b && b <= '9' as u8) {
            proof {
                assert(!is_ascii_digit(digits_all[i - start]));
                assert(!all_digits(digits_all));
                if start == 0 {
                    assert(digits_all =~= t@);
                } else {
                    assert(digits_all == t@.subrange(1, t@.len() as int));
                }
                assert(!spec_i32_shape(t@));
            }
            return None;
        }
        let d: u32 = (b - '0' as u8) as u32;
        let ghost seen: Seq<u8> = t@.subrange(start, i as int);
        let ghost seen_next: Seq<u8> = t@.subrange(start, i as int + 1);
        proof {
            assert(seen_next =~= seen.push(t@[i as int]));
            lemma_digits_value_push(seen, t@[i as int]);
            vstd::arithmetic::div_mod::lemma_fundamental_div_mod((limit - d) as int, 10);
        }
        if acc > (limit - d) / 10 {
            proof {
                assert(digits_value(seen_next) > limit);
                if start == 0 {
                    assert(digits_all =~= t@);
                } else {
                    assert(digits_all == t@.subrange(1, t@.len() as int));
                }
                if all_digits(digits_all) {
                    assert(seen_next =~= digits_all.subrange(0, i as int + 1 - start));
                    lemma_digits_value_prefix_le(digits_all, i as int + 1 - start);
                    assert(digits_value(digits_all) > limit);
                    assert(spec_i32_shape(t@));
                    assert(spec_i32_value(t@) == if negative {
                        -digits_value(digits_all)
                    } else {
                        digits_value(digits_all)
                    });
                    assert(spec_parse_i32(t@) is None);
                } else {
                    assert(!spec_i32_shape(t@));
                }
            }
            return None;
        }
        proof {
            assert(acc * 10 + d <= limit);
        }
        acc = acc * 10 + d;
        i = i + 1;
    }
    proof {
        assert(t@.subrange(start, i as int) =~= digits_all);
        assert(all_digits(digits_all));
        assert(digits_all.len() >= 1);
        if start == 0 {
            assert(digits_all =~= t@);
        } else {
            assert(digits_all == t@.subrange(1, t@.len() as int));
        }
        assert(spec_i32_shape(t@));
        assert(spec_i32_value(t@) == if negative {
            -(acc as int)
        } else {
            acc as int
        });
    }
    if negative {
        if acc == 0x8000_0000 {
            Some(i32::MIN)
        } else {
            Some(-(acc as i32))
        }
    } else {
        Some(acc as i32)
    }
}

/// Whether two byte strings are equal.
fn bytes_eq(a: &[u8], b: &[u8]) -> (r: bool)
    ensures
        r <==> a@ == b@,
{
    if a.len() != b.len() {
        return false;
    }
    let mut i: usize = 0;
    while i < a.len()
        invariant
            0 <= i as int <= a@.len(),
            a@.len() == b@.len(),
            forall|j: int| 0 <= j < i as int ==> a@[j] == b@[j],
        decreases a@.len() - i,
    {
        if a[i] != b[i] {
            return false;
        }
        i = i + 1;
    }
    proof {
        assert(a@ =~= b@);
    }
    true
}

/// Whether `p` is an initial segment of `t`.
fn starts_with(t: &[u8], p: &[u8]) -> (r: bool)
    ensures
        r <==> spec_has_prefix(t@, p@),
{
    if p.len() > t.len() {
        return false;
    }
    let mut i: usize = 0;
    while i < p.len()
        invariant
            0 <= i as int <= p@.len(),
            p@.len() <= t@.len(),
            forall|j: int| 0 <= j < i as int ==> t@[j] == p@[j],
        decreases p@.len() - i,
    {
        if t[i] != p[i] {
            proof {
                assert(t@.subrange(0, p@.len() as int)[i as int] != p@[i as int]);
            }
            return false;
        }
        i = i + 1;
    }
    proof {
        assert(t@.subrange(0, p@.len() as int) =~= p@);
    }
    true
}

/// The recognized console texts, for the external registry table.
pub fn console_class_texts() -> (r: Vec<Vec<u8>>)
    ensures
        r@.len() == 3,
        r@[0]@ == dash_text(),
        r@[1]@ == stdio_text(),
        r@[2]@ == inetd_text(),
{
    let mut dash: Vec<u8> = Vec::new();
    dash.push('-' as u8);
    proof {
        assert(dash@ =~= dash_text());
    }
    let mut stdio: Vec<u8> = Vec::new();
    stdio.push('s' as u8);
    stdio.push('t' as u8);
    stdio.push('d' as u8);
    stdio.push('i' as u8);
    stdio.push('o' as u8);
    stdio.push(':' as u8);
    proof {
        assert(stdio@ =~= stdio_text());
    }
    let mut inetd: Vec<u8> = Vec::new();
    inetd.push('i' as u8);
    inetd.push('n' as u8);
    inetd.push('e' as u8);
    inetd.push('t' as u8);
    inetd.push('d' as u8);
    inetd.push(':' as u8);
    proof {
        assert(inetd@ =~= inetd_text());
    }
    let mut r: Vec<Vec<u8>> = Vec::new();
    r.push(dash);
    r.push(stdio);
    r.push(inetd);
    r
}

/// The file-endpoint prefix, for the external registry table.
pub fn open_async_class_prefix() -> (r: Vec<u8>)
    ensures
        r@ == open_async_prefix_text(),
{
    let mut p: Vec<u8> = Vec::new();
    p.push('o' as u8);
    p.push('p' as u8);
    p.push('e' as u8);
    p.push('n' as u8);
    p.push('-' as u8);
    p.push('a' as u8);
    p.push('s' as u8);
    p.push('y' as u8);
    p.push('n' as u8);
    p.push('c' as u8);
    p.push(':' as u8);
    proof {
        assert(p@ =~= open_async_prefix_text());
    }
    p
}

/// The descriptor-endpoint prefix, for the external registry table.
pub fn open_fd_class_prefix() -> (r: Vec<u8>)
    ensures
        r@ == open_fd_prefix_text(),
{
    let mut p: Vec<u8> = Vec::new();
    p.push('o' as u8);
    p.push('p' as u8);
    p.push('e' as u8);
    p.push('n' as u8);
    p.push('-' as u8);
    p.push('f' as u8);
    p.push('d' as u8);
    p.push(':' as u8);
    proof {
        assert(p@ =~= open_fd_prefix_text());
    }
    p
}

/// How a specifier class treats the text after its prefix.
#[derive(Clone, Copy, Debug, PartialEq, Eq, Structural)]
pub enum ClassArgMode {
    /// The text must be the prefix alone.
    NoArgument,
    /// The rest of the text is taken verbatim as a filesystem path.
    PathArgument,
    /// The rest of the text is parsed as a signed 32-bit integer.
    IntegerArgument,
}

/// Argument handling of the console class.
pub fn console_class_arg_mode() -> (m: ClassArgMode)
    ensures
        m == ClassArgMode::NoArgument,
{
    ClassArgMode::NoArgument
}

/// Argument handling of the file-endpoint class.
pub fn open_async_class_arg_mode() -> (m: ClassArgMode)
    ensures
        m == ClassArgMode::PathArgument,
{
    ClassArgMode::PathArgument
}

/// Argument handling of the descriptor-endpoint class.
pub fn open_fd_class_arg_mode() -> (m: ClassArgMode)
    ensures
        m == ClassArgMode::IntegerArgument,
{
    ClassArgMode::IntegerArgument
}

/// Model of a parsed specifier: which class was selected and its argument.
pub enum SpecSelection {
    Console,
    FileEndpoint(Seq<u8>),
    DescriptorEndpoint(int),
}

/// A successfully parsed specifier: one of the three endpoint descriptions,
/// carrying its argument.
#[derive(Clone, Debug, PartialEq, Eq)]
pub enum SpecifierSelection {
    Console(Stdio),
    FileEndpoint(OpenAsync),
    DescriptorEndpoint(OpenFdAsync),
}

impl View for SpecifierSelection {
    type V = SpecSelection;

    open spec fn view(&self) -> SpecSelection {
        match self {
            SpecifierSelection::Console(_) => SpecSelection::Console,
            SpecifierSelection::FileEndpoint(s) => SpecSelection::FileEndpoint(s.0@),
            SpecifierSelection::DescriptorEndpoint(s) => SpecSelection::DescriptorEndpoint(
                s.0 as int,
            ),
        }
    }
}

/// What parsing specifier text yields: the console forms must match
/// exactly, the file form takes the rest of the text as its path, and the
/// descriptor form requires the rest to be a well-shaped, in-range signed
/// 32-bit number.
pub open spec fn spec_parse_specifier(t: Seq<u8>) -> Option<SpecSelection> {
    if t == dash_text() || t == stdio_text() || t == inetd_text() {
        Some(SpecSelection::Console)
    } else if spec_has_prefix(t, open_async_prefix_text()) {
        Some(
            SpecSelection::FileEndpoint(
                t.subrange(open_async_prefix_text().len() as int, t.len() as int),
            ),
        )
    } else if spec_has_prefix(t, open_fd_prefix_text()) {
        match spec_parse_i32(t.subrange(open_fd_prefix_text().len() as int, t.len() as int)) {
            Some(v) => Some(SpecSelection::DescriptorEndpoint(v)),
            None => None,
        }
    } else {
        None
    }
}

/// Parse specifier text into a typed specifier, exactly as
/// [`spec_parse_specifier`] describes.
pub fn parse_specifier(t: &[u8]) -> (r: Option<SpecifierSelection>)
    ensures
        match r {
            Some(sel) => spec_parse_specifier(t@) == Some(sel@),
            None => spec_parse_specifier(t@) is None,
        },
{
    let console_texts: Vec<Vec<u8>> = console_class_texts();
    if bytes_eq(t, console_texts[0].as_slice()) || bytes_eq(t, console_texts[1].as_slice())
        || bytes_eq(t, console_texts[2].as_slice()) {
        return Some(SpecifierSelection::Console(Stdio));
    }
    let open_async_prefix: Vec<u8> = open_async_class_prefix();
    if starts_with(t, open_async_prefix.as_slice()) {
        let rest: &[u8] = vstd::slice::slice_subrange(t, open_async_prefix.len(), t.len());
        let path: Vec<u8> = vstd::slice::slice_to_vec(rest);
        return Some(SpecifierSelection::FileEndpoint(OpenAsync(path)));
    }
    let open_fd_prefix: Vec<u8> = open_fd_class_prefix();
    if starts_with(t, open_fd_prefix.as_slice()) {
        let rest: &[u8] = vstd::slice::slice_subrange(t, open_fd_prefix.len(), t.len());
        match parse_i32(rest) {
            Some(fd) => {
                return Some(SpecifierSelection::DescriptorEndpoint(OpenFdAsync(fd)));
            },
            None => {
                return None;
            },
        }
    }
    None
}

/// The constructor each selected specifier yields: all three serve exactly
/// one peer, whose construction needs the OS action the selection names.
pub open spec fn spec_constructor_for(sel: SpecSelection) -> SpecPeerConstructor {
    match sel {
        SpecSelection::Console => SpecPeerConstructor::ServeOnce(
            SpecEndpointRequest::ConsoleStreams,
        ),
        SpecSelection::FileEndpoint(p) => SpecPeerConstructor::ServeOnce(
            SpecEndpointRequest::FileByPath(p),
        ),
        SpecSelection::DescriptorEndpoint(fd) => SpecPeerConstructor::ServeOnce(
            SpecEndpointRequest::AdoptDescriptor(fd),
        ),
    }
}

/// Dispatch one construction over a parsed specifier.
pub fn construct_selection(sel: &SpecifierSelection) -> (r: PeerConstructor)
    ensures
        r@ == spec_constructor_for(sel@),
{
    match sel {
        SpecifierSelection::Console(s) => s.construct(),
        SpecifierSelection::FileEndpoint(s) => s.construct(),
        SpecifierSelection::DescriptorEndpoint(s) => s.construct(),
    }
}

/// The whole front half of the relay's data flow: specifier text in, a
/// one-shot peer constructor out, or nothing when the text is not a
/// recognized specifier.
pub fn constructor_for_text(t: &[u8]) -> (r: Option<PeerConstructor>)
    ensures
        match r {
            Some(pc) => spec_parse_specifier(t@) is Some && pc@ == spec_constructor_for(
                spec_parse_specifier(t@)->Some_0,
            ),
            None => spec_parse_specifier(t@) is None,
        },
{
    match parse_specifier(t) {
        Some(sel) => Some(construct_selection(&sel)),
        None => None,
    }
}

} // verus!
