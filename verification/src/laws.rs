//! What holds of the verification as a whole, stated over the spec
//! functions of the other modules and proved from their definitions.

use crate::bytes::eq_ignore_case;
use crate::bytes::first_index_of;
use crate::bytes::is_whitespace;
use crate::bytes::lemma_first_index_of;
use crate::bytes::lemma_first_index_of_props;
use crate::bytes::lemma_skip_whitespace;
use crate::bytes::lemma_skip_whitespace_props;
use crate::bytes::skip_whitespace;
use crate::delegation::decoded_delegation;
use crate::delegation::delegation_outcome;
use crate::delegation::DelegationChainView;
use crate::ecdsa::public_key_der;
use crate::ecdsa::is_p256_signature;
use crate::ecdsa::p256_verification;
use crate::error::Rejection;
use crate::http_signature::component_lines;
use crate::http_signature::header_payload;
use crate::http_signature::params_line;
use crate::http_signature::signature_base;
use crate::http_signature::validation_input;
use crate::http_signature::validation_outcome;
use crate::http_signature::Target;
use crate::http_signature::SIGNATURE_INPUT_HEADER_NAME;
use crate::parse_utils::labeled_value;
use crate::parse_utils::quoted_items;
use crate::parse_utils::signature_input;
use crate::parse_utils::GrammarFault;
use crate::parse_utils::SignatureInput;
use crate::parse_utils::CLOSE_PAREN;
use crate::parse_utils::COLON;
use crate::parse_utils::EQUALS;
use crate::parse_utils::OPEN_PAREN;
use crate::parse_utils::QUOTE;
use crate::principal::self_authenticating_id;
use crate::principal::Principal;
use crate::request::header_value;
use crate::request::RequestView;
use crate::root_key::is_root_key_der;
use crate::root_key::raw_root_key;
use crate::root_key::IC_ROOT_PK_DER_PREFIX;
use vstd::prelude::*;
use vstd::string::StringSliceAdditionalSpecFns;

verus! {

/// A lookup finds the first header of the name: the value of the header
/// at `at`, where no header before it has the name.
pub proof fn law_header_lookup_takes_the_first(
    headers: Seq<(Seq<u8>, Seq<u8>)>,
    name: Seq<u8>,
    at: int,
)
    requires
        0 <= at < headers.len(),
        eq_ignore_case(headers[at].0, name),
        forall|j: int| 0 <= j < at ==> !eq_ignore_case(#[trigger] headers[j].0, name),
    ensures
        header_value(headers, name) == Some(headers[at].1),
    decreases at,
{
    if at > 0 {
        let rest = headers.drop_first();
        assert forall|j: int| 0 <= j < at - 1 implies !eq_ignore_case(
            #[trigger] rest[j].0,
            name,
        ) by {
            assert(rest[j] == headers[j + 1]);
        }
        law_header_lookup_takes_the_first(rest, name, at - 1);
    }
}

/// A lookup finds nothing exactly where no header has the name.
pub proof fn law_header_lookup_finds_what_is_there(headers: Seq<(Seq<u8>, Seq<u8>)>, name: Seq<u8>)
    ensures
        header_value(headers, name) is None <==> forall|j: int|
            0 <= j < headers.len() ==> !eq_ignore_case(#[trigger] headers[j].0, name),
    decreases headers.len(),
{
    if headers.len() > 0 {
        let rest = headers.drop_first();
        law_header_lookup_finds_what_is_there(rest, name);
        if header_value(headers, name) is None {
            assert forall|j: int| 0 <= j < headers.len() implies !eq_ignore_case(
                #[trigger] headers[j].0,
                name,
            ) by {
                if j > 0 {
                    assert(rest[j - 1] == headers[j]);
                }
            }
        } else if !eq_ignore_case(headers[0].0, name) {
            let j = choose|j: int| 0 <= j < rest.len() && eq_ignore_case(#[trigger] rest[j].0, name);
            assert(rest[j] == headers[j + 1]);
        }
    }
}

/// Whether `s` holds nothing but whitespace.
pub open spec fn all_whitespace(s: Seq<u8>) -> bool {
    forall|i: int| 0 <= i < s.len() ==> is_whitespace(#[trigger] s[i])
}

/// Whether `s` is `label`, `=`, the whitespace `gap`, and `value` between
/// two `:`, where the label holds no `=` and the value no `:`.
pub open spec fn has_labeled_shape(
    s: Seq<u8>,
    label: Seq<u8>,
    gap: Seq<u8>,
    value: Seq<u8>,
) -> bool {
    &&& s == label + seq![EQUALS] + gap + seq![COLON] + value + seq![COLON]
    &&& !label.contains(EQUALS)
    &&& all_whitespace(gap)
    &&& !value.contains(COLON)
}

/// Every value of the shape `label=:value:` parses to its label and its
/// value.
pub proof fn law_labeled_value_accepts(s: Seq<u8>, label: Seq<u8>, gap: Seq<u8>, value: Seq<u8>)
    requires
        has_labeled_shape(s, label, gap, value),
    ensures
        labeled_value(s) == Ok::<(Seq<u8>, Seq<u8>), GrammarFault>((label, value)),
{
    let eq = label.len() as int;
    let open = eq + 1 + gap.len();
    let close = open + 1 + value.len();
    assert(s.len() == close + 1);
    assert forall|j: int| 0 <= j < eq implies s[j] != EQUALS by {
        assert(s[j] == label[j]);
        assert(label.contains(label[j]));
    }
    assert(s[eq] == EQUALS);
    lemma_first_index_of(s, EQUALS, 0, eq);
    assert forall|j: int| eq + 1 <= j < open implies is_whitespace(s[j]) by {
        assert(s[j] == gap[j - eq - 1]);
    }
    assert(s[open] == COLON);
    lemma_skip_whitespace(s, eq + 1, open);
    assert forall|j: int| open + 1 <= j < close implies s[j] != COLON by {
        assert(s[j] == value[j - open - 1]);
        assert(value.contains(value[j - open - 1]));
    }
    assert(s[close] == COLON);
    lemma_first_index_of(s, COLON, open + 1, close);
    assert(s.subrange(0, eq) =~= label);
    assert(s.subrange(open + 1, close) =~= value);
}

/// Whatever parses as a labeled value has the shape `label=:value:`.
pub proof fn law_labeled_value_shape(s: Seq<u8>, label: Seq<u8>, value: Seq<u8>)
    requires
        labeled_value(s) == Ok::<(Seq<u8>, Seq<u8>), GrammarFault>((label, value)),
    ensures
        exists|gap: Seq<u8>| has_labeled_shape(s, label, gap, value),
{
    let eq = first_index_of(s, EQUALS, 0);
    lemma_first_index_of_props(s, EQUALS, 0);
    let open = skip_whitespace(s, eq + 1);
    lemma_skip_whitespace_props(s, eq + 1);
    let close = first_index_of(s, COLON, open + 1);
    lemma_first_index_of_props(s, COLON, open + 1);
    let gap = s.subrange(eq + 1, open);
    assert(s =~= label + seq![EQUALS] + gap + seq![COLON] + value + seq![COLON]);
    assert(!label.contains(EQUALS)) by {
        if label.contains(EQUALS) {
            let j = choose|j: int| 0 <= j < label.len() && label[j] == EQUALS;
            assert(s[j] == EQUALS);
        }
    }
    assert(!value.contains(COLON)) by {
        if value.contains(COLON) {
            let j = choose|j: int| 0 <= j < value.len() && value[j] == COLON;
            assert(s[open + 1 + j] == COLON);
        }
    }
    assert(all_whitespace(gap)) by {
        assert forall|i: int| 0 <= i < gap.len() implies is_whitespace(#[trigger] gap[i]) by {
            assert(gap[i] == s[eq + 1 + i]);
        }
    }
    assert(has_labeled_shape(s, label, gap, value));
}

/// `item` between two `"`.
pub open spec fn quoted(item: Seq<u8>) -> Seq<u8> {
    seq![QUOTE] + item + seq![QUOTE]
}

/// The quoted `items` written one after the other, each behind its gap.
pub open spec fn listed(gaps: Seq<Seq<u8>>, items: Seq<Seq<u8>>) -> Seq<u8>
    decreases items.len(),
{
    if items.len() == 0 {
        Seq::empty()
    } else {
        gaps[0] + quoted(items[0]) + listed(gaps.drop_first(), items.drop_first())
    }
}

/// Whether there is a gap of whitespace for each of `items`, and no item
/// holds a `"`.
pub open spec fn well_listed(gaps: Seq<Seq<u8>>, items: Seq<Seq<u8>>) -> bool {
    &&& gaps.len() == items.len()
    &&& forall|i: int| 0 <= i < gaps.len() ==> all_whitespace(#[trigger] gaps[i])
    &&& forall|i: int| 0 <= i < items.len() ==> !(#[trigger] items[i]).contains(QUOTE)
}

/// Whether `s` is `label`, `=`, a gap, and between parentheses the quoted
/// `items`, each behind its gap, with a last gap before `)`; `rest` is what
/// follows.
pub open spec fn has_input_shape(
    s: Seq<u8>,
    label: Seq<u8>,
    gap: Seq<u8>,
    gaps: Seq<Seq<u8>>,
    items: Seq<Seq<u8>>,
    last_gap: Seq<u8>,
    rest: Seq<u8>,
) -> bool {
    &&& s == label + seq![EQUALS] + gap + seq![OPEN_PAREN] + listed(gaps, items) + last_gap
        + seq![CLOSE_PAREN] + rest
    &&& !label.contains(EQUALS)
    &&& all_whitespace(gap)
    &&& well_listed(gaps, items)
    &&& all_whitespace(last_gap)
}

/// Stepping over whitespace from `from` is stepping over the whitespace at
/// the start of what follows `from`.
pub proof fn lemma_skip_whitespace_of_tail(s: Seq<u8>, from: int)
    requires
        0 <= from <= s.len(),
    ensures
        skip_whitespace(s, from) == from + skip_whitespace(s.subrange(from, s.len() as int), 0),
{
    let tail = s.subrange(from, s.len() as int);
    lemma_skip_whitespace_props(tail, 0);
    let k = skip_whitespace(tail, 0);
    assert forall|j: int| from <= j < from + k implies is_whitespace(s[j]) by {
        assert(s[j] == tail[j - from]);
    }
    if from + k < s.len() {
        assert(s[from + k] == tail[k]);
    }
    lemma_skip_whitespace(s, from, from + k);
}

/// A list of quoted items, written with whitespace between them, is read
/// back as these items, up to the first byte of what follows that is
/// neither whitespace nor a `"`.
pub proof fn lemma_quoted_items_of_list(
    s: Seq<u8>,
    from: int,
    gaps: Seq<Seq<u8>>,
    items: Seq<Seq<u8>>,
    tail: Seq<u8>,
)
    requires
        0 <= from <= s.len(),
        s.subrange(from, s.len() as int) == listed(gaps, items) + tail,
        well_listed(gaps, items),
        skip_whitespace(tail, 0) < tail.len() ==> tail[skip_whitespace(tail, 0)] != QUOTE,
    ensures
        quoted_items(s, from) == Some(
            (items, from + listed(gaps, items).len() + skip_whitespace(tail, 0)),
        ),
    decreases items.len(),
{
    let here = s.subrange(from, s.len() as int);
    if items.len() == 0 {
        assert(here =~= tail);
        lemma_skip_whitespace_of_tail(s, from);
        lemma_skip_whitespace_props(tail, 0);
        let open = skip_whitespace(s, from);
        if open < s.len() {
            assert(s[open] == tail[open - from]);
        }
        assert(items =~= Seq::<Seq<u8>>::empty());
    } else {
        let gap = gaps[0];
        let item = items[0];
        let more = listed(gaps.drop_first(), items.drop_first());
        let open = from + gap.len();
        let close = open + 1 + item.len();
        assert(here.len() == gap.len() + 2 + item.len() + more.len() + tail.len());
        assert forall|j: int| from <= j < open implies is_whitespace(s[j]) by {
            assert(s[j] == here[j - from]);
            assert(here[j - from] == gap[j - from]);
        }
        assert(s[open] == here[open - from]);
        assert(s[open] == QUOTE);
        lemma_skip_whitespace(s, from, open);
        assert forall|j: int| open + 1 <= j < close implies s[j] != QUOTE by {
            assert(s[j] == here[j - from]);
            assert(here[j - from] == item[j - open - 1]);
            assert(item.contains(item[j - open - 1]));
        }
        assert(s[close] == here[close - from]);
        assert(s[close] == QUOTE);
        lemma_first_index_of(s, QUOTE, open + 1, close);
        assert(s.subrange(open + 1, close) =~= item) by {
            assert forall|k: int| 0 <= k < item.len() implies s.subrange(open + 1, close)[k]
                == item[k] by {
                assert(s[open + 1 + k] == here[open + 1 + k - from]);
            }
        }
        let head = gap + quoted(item);
        assert(here =~= head + (more + tail));
        assert(s.subrange(close + 1, s.len() as int) =~= more + tail) by {
            assert(s.subrange(close + 1, s.len() as int) =~= here.subrange(
                head.len() as int,
                here.len() as int,
            ));
        }
        assert(well_listed(gaps.drop_first(), items.drop_first())) by {
            assert forall|i: int| 0 <= i < gaps.drop_first().len() implies all_whitespace(
                #[trigger] gaps.drop_first()[i],
            ) by {
                assert(gaps.drop_first()[i] == gaps[i + 1]);
            }
            assert forall|i: int| 0 <= i < items.drop_first().len() implies !(
            #[trigger] items.drop_first()[i]).contains(QUOTE) by {
                assert(items.drop_first()[i] == items[i + 1]);
            }
        }
        lemma_quoted_items_of_list(s, close + 1, gaps.drop_first(), items.drop_first(), tail);
        assert(seq![item] + items.drop_first() =~= items);
        assert(listed(gaps, items).len() == gap.len() + 2 + item.len() + more.len());
    }
}

/// Every value of the shape `label=("a" "b" ...)` parses to its label, to
/// what follows `=` as its parameters, and to the listed items as its
/// components, whatever follows the list.
pub proof fn law_signature_input_accepts(
    s: Seq<u8>,
    label: Seq<u8>,
    gap: Seq<u8>,
    gaps: Seq<Seq<u8>>,
    items: Seq<Seq<u8>>,
    last_gap: Seq<u8>,
    rest: Seq<u8>,
)
    requires
        has_input_shape(s, label, gap, gaps, items, last_gap, rest),
    ensures
        signature_input(s) == Ok::<SignatureInput, GrammarFault>(
            SignatureInput {
                label,
                params: gap + seq![OPEN_PAREN] + listed(gaps, items) + last_gap + seq![
                    CLOSE_PAREN,
                ] + rest,
                components: items,
            },
        ),
{
    let list = listed(gaps, items);
    let eq = label.len() as int;
    let open = eq + 1 + gap.len();
    let tail = last_gap + seq![CLOSE_PAREN] + rest;
    assert(s.len() == open + 1 + list.len() + tail.len());
    assert forall|j: int| 0 <= j < eq implies s[j] != EQUALS by {
        assert(s[j] == label[j]);
        assert(label.contains(label[j]));
    }
    assert(s[eq] == EQUALS);
    lemma_first_index_of(s, EQUALS, 0, eq);
    assert forall|j: int| eq + 1 <= j < open implies is_whitespace(s[j]) by {
        assert(s[j] == gap[j - eq - 1]);
    }
    assert(s[open] == OPEN_PAREN);
    lemma_skip_whitespace(s, eq + 1, open);
    assert(s.subrange(open + 1, s.len() as int) =~= list + tail);
    assert forall|j: int| 0 <= j < last_gap.len() implies is_whitespace(tail[j]) by {
        assert(tail[j] == last_gap[j]);
    }
    assert(tail[last_gap.len() as int] == CLOSE_PAREN);
    lemma_skip_whitespace(tail, 0, last_gap.len() as int);
    lemma_quoted_items_of_list(s, open + 1, gaps, items, tail);
    let end = open + 1 + list.len() + last_gap.len();
    assert(s[end] == tail[last_gap.len() as int]);
    assert(s.subrange(0, eq) =~= label);
    assert(s.subrange(eq + 1, s.len() as int) =~= gap + seq![OPEN_PAREN] + list + last_gap
        + seq![CLOSE_PAREN] + rest);
}

/// Whatever is read as a run of quoted items is such a run: the items
/// written one after the other, each behind a gap of whitespace, and a last
/// gap of whitespace. Returns the gaps and the position of the last one.
pub proof fn lemma_list_of_quoted_items(s: Seq<u8>, from: int) -> (r: (Seq<Seq<u8>>, int))
    requires
        0 <= from <= s.len(),
        quoted_items(s, from) is Some,
    ensures
        well_listed(r.0, quoted_items(s, from).unwrap().0),
        from <= r.1 <= quoted_items(s, from).unwrap().1 <= s.len(),
        s.subrange(from, r.1) == listed(r.0, quoted_items(s, from).unwrap().0),
        all_whitespace(s.subrange(r.1, quoted_items(s, from).unwrap().1)),
        quoted_items(s, from).unwrap().1 < s.len() ==> s[quoted_items(s, from).unwrap().1]
            != QUOTE,
    decreases s.len() - from,
{
    let open = skip_whitespace(s, from);
    lemma_skip_whitespace_props(s, from);
    if open < s.len() && s[open] == QUOTE {
        let close = first_index_of(s, QUOTE, open + 1);
        lemma_first_index_of_props(s, QUOTE, open + 1);
        let (more_gaps, last) = lemma_list_of_quoted_items(s, close + 1);
        let (more_items, end) = quoted_items(s, close + 1).unwrap();
        let gap = s.subrange(from, open);
        let item = s.subrange(open + 1, close);
        let gaps = seq![gap] + more_gaps;
        let items = seq![item] + more_items;
        assert(quoted_items(s, from).unwrap().0 == items);
        assert(gaps.drop_first() =~= more_gaps);
        assert(items.drop_first() =~= more_items);
        assert(all_whitespace(gap)) by {
            assert forall|i: int| 0 <= i < gap.len() implies is_whitespace(#[trigger] gap[i]) by {
                assert(gap[i] == s[from + i]);
            }
        }
        assert(!item.contains(QUOTE)) by {
            if item.contains(QUOTE) {
                let j = choose|j: int| 0 <= j < item.len() && item[j] == QUOTE;
                assert(s[open + 1 + j] == QUOTE);
            }
        }
        assert(well_listed(gaps, items)) by {
            assert forall|i: int| 0 <= i < gaps.len() implies all_whitespace(
                #[trigger] gaps[i],
            ) by {
                if i > 0 {
                    assert(gaps[i] == more_gaps[i - 1]);
                }
            }
            assert forall|i: int| 0 <= i < items.len() implies !(#[trigger] items[i]).contains(
                QUOTE,
            ) by {
                if i > 0 {
                    assert(items[i] == more_items[i - 1]);
                }
            }
        }
        assert(s.subrange(from, last) =~= gap + quoted(item) + s.subrange(close + 1, last));
        (gaps, last)
    } else {
        let gaps = Seq::<Seq<u8>>::empty();
        assert(s.subrange(from, from) =~= Seq::<u8>::empty());
        assert(all_whitespace(s.subrange(from, open))) by {
            assert forall|i: int| 0 <= i < open - from implies is_whitespace(
                #[trigger] s.subrange(from, open)[i],
            ) by {
                assert(s.subrange(from, open)[i] == s[from + i]);
            }
        }
        (gaps, from)
    }
}

/// Whatever parses as a `signature-input` value has the shape
/// `label=("a" "b" ...)`, with the components as the listed items.
pub proof fn law_signature_input_shape(s: Seq<u8>)
    requires
        signature_input(s) is Ok,
    ensures
        exists|gap: Seq<u8>, gaps: Seq<Seq<u8>>, last_gap: Seq<u8>, rest: Seq<u8>|
            has_input_shape(
                s,
                signature_input(s).unwrap().label,
                gap,
                gaps,
                signature_input(s).unwrap().components,
                last_gap,
                rest,
            ),
{
    let input = signature_input(s).unwrap();
    let eq = first_index_of(s, EQUALS, 0);
    lemma_first_index_of_props(s, EQUALS, 0);
    let open = skip_whitespace(s, eq + 1);
    lemma_skip_whitespace_props(s, eq + 1);
    let (gaps, last) = lemma_list_of_quoted_items(s, open + 1);
    let end = quoted_items(s, open + 1).unwrap().1;
    let gap = s.subrange(eq + 1, open);
    let last_gap = s.subrange(last, end);
    let rest = s.subrange(end + 1, s.len() as int);
    assert(s.subrange(open + 1, last) == listed(gaps, input.components));
    assert(s =~= input.label + seq![EQUALS] + gap + seq![OPEN_PAREN] + s.subrange(open + 1, last)
        + last_gap + seq![CLOSE_PAREN] + rest);
    assert(!input.label.contains(EQUALS)) by {
        if input.label.contains(EQUALS) {
            let j = choose|j: int| 0 <= j < input.label.len() && input.label[j] == EQUALS;
            assert(s[j] == EQUALS);
        }
    }
    assert(all_whitespace(gap)) by {
        assert forall|i: int| 0 <= i < gap.len() implies is_whitespace(#[trigger] gap[i]) by {
            assert(gap[i] == s[eq + 1 + i]);
        }
    }
    assert(has_input_shape(s, input.label, gap, gaps, input.components, last_gap, rest));
}

/// A `signature-input` value is its label, `=`, and its parameters: two
/// values with the same label and the same parameters are the same value.
pub proof fn law_signature_input_keeps_params(first: Seq<u8>, second: Seq<u8>)
    requires
        signature_input(first) is Ok,
        signature_input(second) is Ok,
        signature_input(first).unwrap().label == signature_input(second).unwrap().label,
        first != second,
    ensures
        signature_input(first).unwrap().params != signature_input(second).unwrap().params,
{
    let a = signature_input(first).unwrap();
    let b = signature_input(second).unwrap();
    lemma_first_index_of_props(first, EQUALS, 0);
    lemma_first_index_of_props(second, EQUALS, 0);
    assert(first =~= a.label + seq![EQUALS] + a.params);
    assert(second =~= b.label + seq![EQUALS] + b.params);
}

/// Canonicalization is exact: for one list of components, parameters that
/// differ in any byte give canonical payloads that differ. Where a
/// component has no value, both payloads fail alike.
pub proof fn law_payload_tells_params_apart(
    method: Seq<u8>,
    target: Target,
    headers: Seq<(Seq<u8>, Seq<u8>)>,
    components: Seq<Seq<u8>>,
    first: Seq<u8>,
    second: Seq<u8>,
)
    requires
        first != second,
    ensures
        match (
            signature_base(method, target, headers, first, components),
            signature_base(method, target, headers, second, components),
        ) {
            (Ok(a), Ok(b)) => a != b,
            (Err(a), Err(b)) => a == b,
            _ => false,
        },
{
    match component_lines(method, target, headers, components) {
        Ok(lines) => {
            let a = lines + params_line(first);
            let b = lines + params_line(second);
            if a == b {
                let head = "\"@signature-params\": ".spec_bytes();
                let tail = "\n".spec_bytes();
                assert(a.subrange(lines.len() as int, a.len() as int) =~= params_line(first));
                assert(b.subrange(lines.len() as int, b.len() as int) =~= params_line(second));
                assert(params_line(first).len() == params_line(second).len());
                assert(first.len() == second.len());
                assert forall|i: int| 0 <= i < first.len() implies first[i] == second[i] by {
                    assert(params_line(first)[head.len() + i] == first[i]);
                    assert(params_line(second)[head.len() + i] == second[i]);
                }
                assert(first =~= second);
            }
        },
        Err(_) => {},
    }
}

/// Two `signature-input` values that list the same components under the
/// same label, but differ in any byte, give different canonical payloads
/// for the same request.
pub proof fn law_canonicalization_is_exact(
    method: Seq<u8>,
    target: Target,
    headers: Seq<(Seq<u8>, Seq<u8>)>,
    first: Seq<u8>,
    second: Seq<u8>,
)
    requires
        signature_input(first) is Ok,
        signature_input(second) is Ok,
        signature_input(first).unwrap().label == signature_input(second).unwrap().label,
        signature_input(first).unwrap().components == signature_input(second).unwrap().components,
        first != second,
    ensures
        match (
            signature_base(
                method,
                target,
                headers,
                signature_input(first).unwrap().params,
                signature_input(first).unwrap().components,
            ),
            signature_base(
                method,
                target,
                headers,
                signature_input(second).unwrap().params,
                signature_input(second).unwrap().components,
            ),
        ) {
            (Ok(a), Ok(b)) => a != b,
            (Err(a), Err(b)) => a == b,
            _ => false,
        },
{
    law_signature_input_keeps_params(first, second);
    law_payload_tells_params_apart(
        method,
        target,
        headers,
        signature_input(first).unwrap().components,
        signature_input(first).unwrap().params,
        signature_input(second).unwrap().params,
    );
}

/// Only single-hop delegation is accepted: a chain with no delegation, or
/// with more than one, is rejected for its length, whatever it holds.
pub proof fn law_single_hop(
    chain: DelegationChainView,
    session_key: Seq<u8>,
    issuer: Seq<char>,
    root_key_der: Seq<u8>,
)
    requires
        chain.delegations.len() != 1,
    ensures
        delegation_outcome(chain, session_key, issuer, root_key_der) == Err::<Seq<u8>, Rejection>(
            Rejection::InvalidDelegationChainLength,
        ),
{
}

/// A request whose `signature-key` header carries a chain with no
/// delegation, or with more than one, is never authenticated.
pub proof fn law_single_hop_for_requests(req: RequestView, root_key_der: Seq<u8>)
    requires
        validation_input(req) is Ok,
        validation_input(req)->Ok_0.signature_key_header.delegation_chain is Some,
        validation_input(req)->Ok_0.signature_key_header.delegation_chain.unwrap().delegations.len()
            != 1,
    ensures
        validation_outcome(req, root_key_der) is Err,
{
}

/// A delegation is bound to the session key: a chain is accepted only if
/// its delegation names the key that signed the request.
pub proof fn law_session_key_binding(
    chain: DelegationChainView,
    session_key: Seq<u8>,
    issuer: Seq<char>,
    root_key_der: Seq<u8>,
)
    requires
        delegation_outcome(chain, session_key, issuer, root_key_der) is Ok,
    ensures
        chain.delegations.len() == 1,
        decoded_delegation(chain) is Some,
        decoded_delegation(chain).unwrap().session_key == session_key,
{
}

/// A chain whose delegation names another key than the one that signed the
/// request is rejected, whatever its signature.
pub proof fn law_session_key_mismatch_rejected(
    chain: DelegationChainView,
    session_key: Seq<u8>,
    issuer: Seq<char>,
    root_key_der: Seq<u8>,
)
    requires
        chain.delegations.len() == 1,
        decoded_delegation(chain) is Some,
        decoded_delegation(chain).unwrap().session_key != session_key,
    ensures
        delegation_outcome(chain, session_key, issuer, root_key_der) is Err,
{
}

/// The envelope made of the prefix and any 96 bytes is valid and holds
/// these bytes.
pub proof fn law_root_key_extraction(key: Seq<u8>)
    requires
        key.len() == 96,
    ensures
        is_root_key_der(IC_ROOT_PK_DER_PREFIX@ + key),
        raw_root_key(IC_ROOT_PK_DER_PREFIX@ + key) == key,
{
    let der = IC_ROOT_PK_DER_PREFIX@ + key;
    assert(der.subrange(0, 37) =~= IC_ROOT_PK_DER_PREFIX@);
    assert(der.subrange(37, 133) =~= key);
}

/// Nothing but the prefix followed by 96 bytes is a valid envelope: an
/// input of another length, or with another prefix, is rejected.
pub proof fn law_root_key_rejection(der: Seq<u8>)
    ensures
        is_root_key_der(der) <==> exists|key: Seq<u8>|
            key.len() == 96 && der == IC_ROOT_PK_DER_PREFIX@ + key,
{
    if is_root_key_der(der) {
        let key = der.subrange(37, 133);
        assert(der =~= IC_ROOT_PK_DER_PREFIX@ + key);
    }
    if exists|key: Seq<u8>| key.len() == 96 && der == IC_ROOT_PK_DER_PREFIX@ + key {
        let key = choose|key: Seq<u8>| key.len() == 96 && der == IC_ROOT_PK_DER_PREFIX@ + key;
        law_root_key_extraction(key);
    }
}

/// Identities are determined by keys: two identifiers derived from the
/// same public key are the same.
pub proof fn law_identity_is_determined(public_key: Seq<u8>, first: Principal, second: Principal)
    requires
        first@ == self_authenticating_id(public_key),
        second@ == self_authenticating_id(public_key),
    ensures
        first@ == second@,
{
}

/// Two verifications of the same request against the same root key end
/// alike: with the same identifier, or with the same rejection.
pub proof fn law_verification_is_determined(
    req: RequestView,
    root_key_der: Seq<u8>,
    first: Result<Seq<u8>, Rejection>,
    second: Result<Seq<u8>, Rejection>,
)
    requires
        first == validation_outcome(req, root_key_der),
        second == validation_outcome(req, root_key_der),
    ensures
        first == second,
{
}

/// No request is authenticated without a signature that verifies: where a
/// request is accepted, its three headers were read, and the signature is
/// a valid signature of the canonical payload under the key of the
/// `signature-key` header.
pub proof fn law_no_false_accept(req: RequestView, root_key_der: Seq<u8>)
    requires
        validation_outcome(req, root_key_der) is Ok,
    ensures
        validation_input(req) is Ok,
        is_p256_signature(validation_input(req)->Ok_0.signature),
        public_key_der(validation_input(req)->Ok_0.signature_key_header.pub_key) is Ok,
        p256_verification(
            validation_input(req)->Ok_0.payload,
            validation_input(req)->Ok_0.signature,
            public_key_der(validation_input(req)->Ok_0.signature_key_header.pub_key)->Ok_0,
        ) is Ok,
        header_payload(req, req.headers) == Ok::<Seq<u8>, Rejection>(
            validation_input(req)->Ok_0.payload,
        ),
{
}

/// A request without one of the three signature headers is rejected for
/// the first that is missing.
pub proof fn law_missing_headers(req: RequestView, root_key_der: Seq<u8>)
    ensures
        header_value(req.headers, "signature".spec_bytes()) is None ==> validation_outcome(
            req,
            root_key_der,
        ) == Err::<Seq<u8>, Rejection>(Rejection::MissingSignatureHeader),
        validation_input(req) is Ok ==> header_value(
            req.headers,
            SIGNATURE_INPUT_HEADER_NAME.spec_bytes(),
        ) is Some,
{
}

} // verus!
