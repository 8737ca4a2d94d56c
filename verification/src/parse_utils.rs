//! The grammar of the three signature headers.
//!
//! `signature` and `signature-key` have the shape `label=:payload:`, and
//! `signature-input` the shape `label=("a" "b" ...)` followed by parameters
//! that are carried along verbatim. The grammar is stated on bytes, by spec
//! functions that say for every input either what it parses to or which
//! part of the shape it lacks.

use crate::bytes::find_byte;
use crate::bytes::first_index_of;
use crate::bytes::skip_whitespace;
use crate::bytes::skip_whitespace_from;
use crate::error::diagnostic;
use crate::error::HttpAuthError;
use vstd::prelude::*;
use vstd::slice::slice_subrange;
use vstd::string::StringSliceAdditionalSpecFns;

verus! {

/// `=`, which ends a label.
pub const EQUALS: u8 = 0x3d;

/// `:`, which encloses a payload.
pub const COLON: u8 = 0x3a;

/// `"`, which encloses a component identifier.
pub const QUOTE: u8 = 0x22;

/// `(`, which opens the component list.
pub const OPEN_PAREN: u8 = 0x28;

/// `)`, which closes the component list.
pub const CLOSE_PAREN: u8 = 0x29;

/// The part of a header's shape that an input lacks.
#[derive(Clone, Copy, Debug, PartialEq, Eq, Structural)]
pub enum GrammarFault {
    /// No `=` ends the label.
    MissingEquals,
    /// The label is not followed by `:`.
    MissingOpeningColon,
    /// No second `:` ends the payload.
    MissingClosingColon,
    /// Bytes follow the `:` that ends the payload.
    TrailingInput,
    /// The label is not followed by `(`.
    MissingOpenParen,
    /// A component identifier lacks its closing `"`.
    UnterminatedComponent,
    /// The component list is not closed by `)`.
    MissingCloseParen,
}

/// What a `label=:payload:` value parses to: the label and the payload, or
/// the first part of the shape that is missing.
///
/// The label is everything before the first `=`. Whitespace may stand
/// between `=` and the opening `:`. The payload is everything between the
/// opening `:` and the next one, which must be the last byte.
pub open spec fn labeled_value(s: Seq<u8>) -> Result<(Seq<u8>, Seq<u8>), GrammarFault> {
    let eq = first_index_of(s, EQUALS, 0);
    let open = skip_whitespace(s, eq + 1);
    let close = first_index_of(s, COLON, open + 1);
    if eq >= s.len() {
        Err(GrammarFault::MissingEquals)
    } else if open >= s.len() || s[open] != COLON {
        Err(GrammarFault::MissingOpeningColon)
    } else if close >= s.len() {
        Err(GrammarFault::MissingClosingColon)
    } else if close + 1 != s.len() {
        Err(GrammarFault::TrailingInput)
    } else {
        Ok((s.subrange(0, eq), s.subrange(open + 1, close)))
    }
}

/// The run of quoted items that starts at `from`, each preceded by optional
/// whitespace, with the position of the first byte that is neither
/// whitespace nor an opening quote. `None` when an item is not closed.
pub open spec fn quoted_items(s: Seq<u8>, from: int) -> Option<(Seq<Seq<u8>>, int)>
    decreases s.len() - from,
{
    let open = skip_whitespace(s, from);
    let close = first_index_of(s, QUOTE, open + 1);
    if from <= open < s.len() && s[open] == QUOTE {
        if open < close < s.len() {
            match quoted_items(s, close + 1) {
                Some((rest, end)) => Some((seq![s.subrange(open + 1, close)] + rest, end)),
                None => None,
            }
        } else {
            None
        }
    } else {
        Some((Seq::empty(), open))
    }
}

/// A `signature-input` value taken apart.
pub struct SignatureInput {
    /// Everything before the first `=`.
    pub label: Seq<u8>,
    /// Everything after the first `=`, verbatim.
    pub params: Seq<u8>,
    /// The component identifiers, in the order in which they are listed.
    pub components: Seq<Seq<u8>>,
}

/// What a `signature-input` value parses to, or the first part of the shape
/// that is missing.
///
/// After the label and `=` comes a parenthesised list of quoted component
/// identifiers. Whitespace may stand before `(`, before each identifier and
/// before `)`; an identifier is the exact text between its quotes. What
/// follows `)` is not looked at.
pub open spec fn signature_input(s: Seq<u8>) -> Result<SignatureInput, GrammarFault> {
    let eq = first_index_of(s, EQUALS, 0);
    let open = skip_whitespace(s, eq + 1);
    if eq >= s.len() {
        Err(GrammarFault::MissingEquals)
    } else if open >= s.len() || s[open] != OPEN_PAREN {
        Err(GrammarFault::MissingOpenParen)
    } else {
        match quoted_items(s, open + 1) {
            None => Err(GrammarFault::UnterminatedComponent),
            Some((components, end)) => if end < s.len() && s[end] == CLOSE_PAREN {
                Ok(
                    SignatureInput {
                        label: s.subrange(0, eq),
                        params: s.subrange(eq + 1, s.len() as int),
                        components,
                    },
                )
            } else {
                Err(GrammarFault::MissingCloseParen)
            },
        }
    }
}

/// The byte strings that a vector of slices holds.
pub open spec fn slice_views(v: Seq<&[u8]>) -> Seq<Seq<u8>> {
    Seq::new(v.len(), |i: int| v[i]@)
}

impl GrammarFault {
    /// The sentence that names the missing part.
    pub open spec fn text(self) -> Seq<char> {
        match self {
            GrammarFault::MissingEquals => "expected `=` after the label"@,
            GrammarFault::MissingOpeningColon => "expected `:` after `=`"@,
            GrammarFault::MissingClosingColon => "expected `:` after the payload"@,
            GrammarFault::TrailingInput => "unexpected input after the payload"@,
            GrammarFault::MissingOpenParen => "expected `(` after `=`"@,
            GrammarFault::UnterminatedComponent => "expected `\"` after a component identifier"@,
            GrammarFault::MissingCloseParen => "expected `)` after the components"@,
        }
    }

    /// A sentence that names the missing part.
    pub fn describe(&self) -> (r: String)
        ensures
            r@ == self.text(),
    {
        match self {
            GrammarFault::MissingEquals => diagnostic("expected `=` after the label"),
            GrammarFault::MissingOpeningColon => diagnostic("expected `:` after `=`"),
            GrammarFault::MissingClosingColon => diagnostic("expected `:` after the payload"),
            GrammarFault::TrailingInput => diagnostic("unexpected input after the payload"),
            GrammarFault::MissingOpenParen => diagnostic("expected `(` after `=`"),
            GrammarFault::UnterminatedComponent => diagnostic(
                "expected `\"` after a component identifier",
            ),
            GrammarFault::MissingCloseParen => diagnostic("expected `)` after the components"),
        }
    }
}

/// Takes a `label=:payload:` value apart.
pub fn parse_labeled_value<'a>(s: &'a [u8]) -> (r: Result<(&'a [u8], &'a [u8]), GrammarFault>)
    ensures
        match r {
            Ok((label, value)) => labeled_value(s@) == Ok::<_, GrammarFault>((label@, value@)),
            Err(fault) => labeled_value(s@) == Err::<(Seq<u8>, Seq<u8>), _>(fault),
        },
{
    let eq: usize = find_byte(s, EQUALS, 0);
    if eq >= s.len() {
        return Err(GrammarFault::MissingEquals);
    }
    let open: usize = skip_whitespace_from(s, eq + 1);
    if open >= s.len() || s[open] != COLON {
        return Err(GrammarFault::MissingOpeningColon);
    }
    let close: usize = find_byte(s, COLON, open + 1);
    if close >= s.len() {
        return Err(GrammarFault::MissingClosingColon);
    }
    if close + 1 != s.len() {
        return Err(GrammarFault::TrailingInput);
    }
    Ok((slice_subrange(s, 0, eq), slice_subrange(s, open + 1, close)))
}

/// Takes a `signature-input` value apart.
pub fn parse_signature_input<'a>(s: &'a [u8]) -> (r: Result<
    (&'a [u8], &'a [u8], Vec<&'a [u8]>),
    GrammarFault,
>)
    ensures
        match r {
            Ok((label, params, components)) => signature_input(s@) == Ok::<_, GrammarFault>(
                SignatureInput {
                    label: label@,
                    params: params@,
                    components: slice_views(components@),
                },
            ),
            Err(fault) => signature_input(s@) == Err::<SignatureInput, _>(fault),
        },
{
    let eq: usize = find_byte(s, EQUALS, 0);
    if eq >= s.len() {
        return Err(GrammarFault::MissingEquals);
    }
    let open: usize = skip_whitespace_from(s, eq + 1);
    if open >= s.len() || s[open] != OPEN_PAREN {
        return Err(GrammarFault::MissingOpenParen);
    }
    let mut components: Vec<&'a [u8]> = Vec::new();
    let mut pos: usize = open + 1;
    let ghost start: int = open + 1;
    loop
        invariant
            eq == first_index_of(s@, EQUALS, 0),
            eq < s@.len(),
            open == skip_whitespace(s@, eq + 1),
            open < s@.len(),
            s@[open as int] == OPEN_PAREN,
            start == open + 1,
            start <= pos <= s@.len(),
            quoted_items(s@, start) == match quoted_items(s@, pos as int) {
                Some((rest, end)) => Some((slice_views(components@) + rest, end)),
                None => None,
            },
        decreases s@.len() - pos,
    {
        let item: usize = skip_whitespace_from(s, pos);
        if item >= s.len() || s[item] != QUOTE {
            proof {
                assert(quoted_items(s@, pos as int) == Some((Seq::<Seq<u8>>::empty(), item as int)));
                assert(slice_views(components@) + Seq::<Seq<u8>>::empty() =~= slice_views(
                    components@,
                ));
            }
            if item < s.len() && s[item] == CLOSE_PAREN {
                return Ok((slice_subrange(s, 0, eq), slice_subrange(s, eq + 1, s.len()), components));
            } else {
                return Err(GrammarFault::MissingCloseParen);
            }
        }
        let close: usize = find_byte(s, QUOTE, item + 1);
        if close >= s.len() {
            return Err(GrammarFault::UnterminatedComponent);
        }
        let ghost before = slice_views(components@);
        let component: &'a [u8] = slice_subrange(s, item + 1, close);
        components.push(component);
        proof {
            assert(slice_views(components@) =~= before + seq![component@]);
            match quoted_items(s@, close + 1) {
                Some((rest, end)) => {
                    assert((before + seq![component@]) + rest =~= before + (seq![component@]
                        + rest));
                },
                None => {},
            }
        }
        pos = close + 1;
    }
}

/// Reads a `signature` header value: its label and its base64 payload.
pub fn parse_http_sig<'a>(header_field: &'a str) -> (r: Result<
    (&'a [u8], &'a [u8]),
    HttpAuthError,
>)
    ensures
        match r {
            Ok((label, value)) => labeled_value(header_field.spec_bytes()) == Ok::<
                _,
                GrammarFault,
            >((label@, value@)),
            Err(HttpAuthError::MalformedHttpSig(reason)) => labeled_value(
                header_field.spec_bytes(),
            ) is Err && reason@ == labeled_value(header_field.spec_bytes())->Err_0.text(),
            Err(_) => false,
        },
{
    match parse_labeled_value(header_field.as_bytes()) {
        Ok(parts) => Ok(parts),
        Err(fault) => Err(HttpAuthError::MalformedHttpSig(fault.describe())),
    }
}

/// Reads a `signature-key` header value: its label and its base64 payload.
pub fn parse_http_sig_key<'a>(http_sig_key: &'a str) -> (r: Result<
    (&'a [u8], &'a [u8]),
    HttpAuthError,
>)
    ensures
        match r {
            Ok((label, value)) => labeled_value(http_sig_key.spec_bytes()) == Ok::<
                _,
                GrammarFault,
            >((label@, value@)),
            Err(HttpAuthError::MalformedHttpSigKey(reason)) => labeled_value(
                http_sig_key.spec_bytes(),
            ) is Err && reason@ == labeled_value(http_sig_key.spec_bytes())->Err_0.text(),
            Err(_) => false,
        },
{
    match parse_labeled_value(http_sig_key.as_bytes()) {
        Ok(parts) => Ok(parts),
        Err(fault) => Err(HttpAuthError::MalformedHttpSigKey(fault.describe())),
    }
}

/// Reads a `signature-input` header value: its label, its parameters as
/// they stand, and the component identifiers in order.
pub fn parse_http_sig_input<'a>(http_sig_input: &'a str) -> (r: Result<
    (&'a [u8], &'a [u8], Vec<&'a [u8]>),
    HttpAuthError,
>)
    ensures
        match r {
            Ok((label, params, components)) => signature_input(http_sig_input.spec_bytes())
                == Ok::<_, GrammarFault>(
                SignatureInput {
                    label: label@,
                    params: params@,
                    components: slice_views(components@),
                },
            ),
            Err(HttpAuthError::MalformedHttpSigInput(reason)) => signature_input(
                http_sig_input.spec_bytes(),
            ) is Err && reason@ == signature_input(http_sig_input.spec_bytes())->Err_0.text(),
            Err(_) => false,
        },
{
    match parse_signature_input(http_sig_input.as_bytes()) {
        Ok(parts) => Ok(parts),
        Err(fault) => Err(HttpAuthError::MalformedHttpSigInput(fault.describe())),
    }
}

} // verus!
