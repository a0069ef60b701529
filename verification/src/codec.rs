//! The wire codec: one JSON object per line, UTF-8, with the envelope
//! fields of the model and nothing else.
//!
//! The codec defines one canonical line form and speaks it in both
//! directions:
//!
//! ```text
//! {"src":<str>,"dest":<str>,"body":{"type":<kind>
//!     [,"msg_id":<u64>][,"in_reply_to":<u64>]<payload fields>}}
//! ```
//!
//! with no whitespace, the payload's own fields in declaration order
//! (`node_id` then `node_ids`; `code` then `text`; `echo`), `msg_id`
//! and `in_reply_to` omitted — not null — when absent, and strings
//! escaping `"`, `\`, newline, carriage return and tab as `\"`,
//! `\\`, `\n`, `\r` and `\t` and every other control byte as
//! `\u00XX`; the parser also accepts `\u00XX` for any ASCII byte. An
//! unknown `type` parses into the open [`Payload::Other`] variant: its
//! kind name is kept and its other members are skipped unexamined. The
//! encoder emits this form; the parser accepts this form and rejects
//! every other line as malformed, which the caller skips or answers
//! without terminating the stream.

use vstd::prelude::*;
use vstd::string::StrSliceExecFns;
use vstd::string::StringSliceAdditionalSpecFns;

use crate::envelope::{bytes_eq, copy_bytes, Body, BodyView, Kind, Message, MessageView, Payload, PayloadView};
use crate::errors::ErrorCode;

verus! {

// --- The canonical encoding, at the specification level. ---

/// The lowercase hex digit for a value below 16.
pub open spec fn hex_digit(d: u8) -> u8 {
    if d < 10 {
        (48 + d) as u8
    } else {
        (87 + d) as u8
    }
}

/// How one byte of a string field appears between the quotes. Every
/// control byte is escaped, so string data never contributes a raw
/// newline — or any other control byte — to the line.
pub open spec fn esc_byte(b: u8) -> Seq<u8> {
    if b == 34 {
        seq![92u8, 34u8]
    } else if b == 92 {
        seq![92u8, 92u8]
    } else if b == 10 {
        seq![92u8, 110u8]
    } else if b == 13 {
        seq![92u8, 114u8]
    } else if b == 9 {
        seq![92u8, 116u8]
    } else if b < 32 {
        seq![92u8, 117u8, 48u8, 48u8, hex_digit(b / 16), hex_digit(b % 16)]
    } else {
        seq![b]
    }
}

/// A whole string field's bytes, escaped.
pub open spec fn esc_bytes(s: Seq<u8>) -> Seq<u8>
    decreases s.len(),
{
    if s.len() == 0 {
        Seq::empty()
    } else {
        esc_bytes(s.drop_last()) + esc_byte(s.last())
    }
}

/// A JSON string: the escaped bytes between double quotes.
pub open spec fn enc_str(s: Seq<u8>) -> Seq<u8> {
    seq![34u8] + esc_bytes(s) + seq![34u8]
}

/// A number in decimal, without sign or leading zeros.
pub open spec fn enc_u64(n: u64) -> Seq<u8>
    decreases n,
{
    if n < 10 {
        seq![(48 + n) as u8]
    } else {
        enc_u64((n / 10) as u64) + seq![(48 + (n % 10)) as u8]
    }
}

/// The members of the `node_ids` array, comma-separated.
pub open spec fn enc_id_list(ids: Seq<Seq<u8>>) -> Seq<u8>
    decreases ids.len(),
{
    if ids.len() == 0 {
        Seq::empty()
    } else if ids.len() == 1 {
        enc_str(ids[0])
    } else {
        enc_id_list(ids.drop_last()) + seq![44u8] + enc_str(ids.last())
    }
}

/// The quoted value of the `type` field for each payload kind.
pub open spec fn kind_lit(p: PayloadView) -> Seq<u8> {
    match p {
        PayloadView::Init { .. } => ("\"init\"").spec_bytes(),
        PayloadView::InitOk => ("\"init_ok\"").spec_bytes(),
        PayloadView::Error { .. } => ("\"error\"").spec_bytes(),
        PayloadView::Echo { .. } => ("\"echo\"").spec_bytes(),
        PayloadView::EchoOk { .. } => ("\"echo_ok\"").spec_bytes(),
        PayloadView::Other { kind } => enc_str(kind),
    }
}

/// The payload-specific members that follow the correlation fields.
pub open spec fn enc_payload_fields(p: PayloadView) -> Seq<u8> {
    match p {
        PayloadView::Init { node_id, node_ids } => (",\"node_id\":").spec_bytes() + enc_str(
            node_id,
        ) + (",\"node_ids\":[").spec_bytes() + enc_id_list(node_ids) + ("]").spec_bytes(),
        PayloadView::InitOk => Seq::empty(),
        PayloadView::Error { code, text } => (",\"code\":").spec_bytes() + enc_u64(code) + (
        ",\"text\":").spec_bytes() + enc_str(text),
        PayloadView::Echo { echo } => (",\"echo\":").spec_bytes() + enc_str(echo),
        PayloadView::EchoOk { echo } => (",\"echo\":").spec_bytes() + enc_str(echo),
        PayloadView::Other { .. } => Seq::empty(),
    }
}

/// The `msg_id` member, or nothing when it is absent.
pub open spec fn enc_msg_id_field(o: Option<u64>) -> Seq<u8> {
    match o {
        Some(n) => (",\"msg_id\":").spec_bytes() + enc_u64(n),
        None => Seq::empty(),
    }
}

/// The `in_reply_to` member, or nothing when it is absent.
pub open spec fn enc_in_reply_to_field(o: Option<u64>) -> Seq<u8> {
    match o {
        Some(n) => (",\"in_reply_to\":").spec_bytes() + enc_u64(n),
        None => Seq::empty(),
    }
}

/// A body: the `type` tag, the correlation fields that are present,
/// then the payload's own members.
pub open spec fn enc_body(b: BodyView) -> Seq<u8> {
    ("{\"type\":").spec_bytes() + kind_lit(b.payload) + enc_msg_id_field(b.msg_id)
        + enc_in_reply_to_field(b.in_reply_to) + enc_payload_fields(b.payload) + (
    "}").spec_bytes()
}

/// A whole message on the wire, newline not included.
pub open spec fn enc_msg(m: MessageView) -> Seq<u8> {
    ("{\"src\":").spec_bytes() + enc_str(m.src) + (",\"dest\":").spec_bytes() + enc_str(m.dest) + (
    ",\"body\":").spec_bytes() + enc_body(m.body) + ("}").spec_bytes()
}

/// Holds of a byte sequence that contains no newline.
pub open spec fn newline_free(s: Seq<u8>) -> bool {
    forall|i: int| 0 <= i < s.len() ==> #[trigger] s[i] != 10
}

/// Two newline-free pieces concatenate to a newline-free whole.
proof fn lemma_nl_concat(a: Seq<u8>, b: Seq<u8>)
    requires
        newline_free(a),
        newline_free(b),
    ensures
        newline_free(a + b),
{
    assert forall|i: int| 0 <= i < (a + b).len() implies #[trigger] (a + b)[i] != 10 by {
        if i < a.len() {
            assert((a + b)[i] == a[i]);
        } else {
            assert((a + b)[i] == b[i - a.len()]);
        }
    }
}

/// Escaped string data contains no raw newline: every byte reaches the
/// line escaped away from the line terminator.
proof fn lemma_nl_esc_bytes(s: Seq<u8>)
    ensures
        newline_free(esc_bytes(s)),
    decreases s.len(),
{
    if s.len() > 0 {
        lemma_nl_esc_bytes(s.drop_last());
        lemma_nl_concat(esc_bytes(s.drop_last()), esc_byte(s.last()));
    }
}

/// A quoted string contains no raw newline.
proof fn lemma_nl_enc_str(s: Seq<u8>)
    ensures
        newline_free(enc_str(s)),
{
    lemma_nl_esc_bytes(s);
    lemma_nl_concat(seq![34u8], esc_bytes(s));
    lemma_nl_concat(seq![34u8] + esc_bytes(s), seq![34u8]);
}

/// An encoded number is decimal digits, never a newline.
proof fn lemma_nl_enc_u64(n: u64)
    ensures
        newline_free(enc_u64(n)),
    decreases n,
{
    if n >= 10 {
        lemma_nl_enc_u64(n / 10);
        lemma_nl_concat(enc_u64((n / 10) as u64), seq![(48 + (n % 10)) as u8]);
    }
}

/// An encoded id list contains no newline.
proof fn lemma_nl_enc_id_list(ids: Seq<Seq<u8>>)
    ensures
        newline_free(enc_id_list(ids)),
    decreases ids.len(),
{
    if ids.len() == 1 {
        lemma_nl_enc_str(ids[0]);
    } else if ids.len() > 1 {
        lemma_nl_enc_id_list(ids.drop_last());
        lemma_nl_enc_str(ids.last());
        lemma_nl_concat(enc_id_list(ids.drop_last()), seq![44u8]);
        lemma_nl_concat(enc_id_list(ids.drop_last()) + seq![44u8], enc_str(ids.last()));
    }
}

/// None of the fixed key and tag literals contains a newline.
proof fn lemma_nl_lits()
    ensures
        newline_free(("{\"src\":").spec_bytes()),
        newline_free((",\"dest\":").spec_bytes()),
        newline_free((",\"body\":").spec_bytes()),
        newline_free(("{\"type\":").spec_bytes()),
        newline_free((",\"msg_id\":").spec_bytes()),
        newline_free((",\"in_reply_to\":").spec_bytes()),
        newline_free((",\"node_id\":").spec_bytes()),
        newline_free((",\"node_ids\":[").spec_bytes()),
        newline_free(("]").spec_bytes()),
        newline_free((",\"code\":").spec_bytes()),
        newline_free((",\"text\":").spec_bytes()),
        newline_free((",\"echo\":").spec_bytes()),
        newline_free(("}").spec_bytes()),
        newline_free(("\"init\"").spec_bytes()),
        newline_free(("\"init_ok\"").spec_bytes()),
        newline_free(("\"error\"").spec_bytes()),
        newline_free(("\"echo\"").spec_bytes()),
        newline_free(("\"echo_ok\"").spec_bytes()),
{
    broadcast use vstd::string::is_ascii_spec_bytes;

    reveal_strlit("{\"src\":");
    assert(("{\"src\":").is_ascii());
    reveal_strlit(",\"dest\":");
    assert((",\"dest\":").is_ascii());
    reveal_strlit(",\"body\":");
    assert((",\"body\":").is_ascii());
    reveal_strlit("{\"type\":");
    assert(("{\"type\":").is_ascii());
    reveal_strlit(",\"msg_id\":");
    assert((",\"msg_id\":").is_ascii());
    reveal_strlit(",\"in_reply_to\":");
    assert((",\"in_reply_to\":").is_ascii());
    reveal_strlit(",\"node_id\":");
    assert((",\"node_id\":").is_ascii());
    reveal_strlit(",\"node_ids\":[");
    assert((",\"node_ids\":[").is_ascii());
    reveal_strlit("]");
    assert(("]").is_ascii());
    reveal_strlit(",\"code\":");
    assert((",\"code\":").is_ascii());
    reveal_strlit(",\"text\":");
    assert((",\"text\":").is_ascii());
    reveal_strlit(",\"echo\":");
    assert((",\"echo\":").is_ascii());
    reveal_strlit("}");
    assert(("}").is_ascii());
    reveal_strlit("\"init\"");
    assert(("\"init\"").is_ascii());
    reveal_strlit("\"init_ok\"");
    assert(("\"init_ok\"").is_ascii());
    reveal_strlit("\"error\"");
    assert(("\"error\"").is_ascii());
    reveal_strlit("\"echo\"");
    assert(("\"echo\"").is_ascii());
    reveal_strlit("\"echo_ok\"");
    assert(("\"echo_ok\"").is_ascii());
}

/// An encoded body contains no newline.
proof fn lemma_nl_enc_body(b: BodyView)
    ensures
        newline_free(enc_body(b)),
{
    lemma_nl_lits();
    let k = kind_lit(b.payload);
    match b.payload {
        PayloadView::Other { kind } => lemma_nl_enc_str(kind),
        _ => {},
    }
    let mf = enc_msg_id_field(b.msg_id);
    match b.msg_id {
        Some(n) => {
            lemma_nl_enc_u64(n);
            lemma_nl_concat((",\"msg_id\":").spec_bytes(), enc_u64(n));
        },
        None => {},
    }
    let rf = enc_in_reply_to_field(b.in_reply_to);
    match b.in_reply_to {
        Some(n) => {
            lemma_nl_enc_u64(n);
            lemma_nl_concat((",\"in_reply_to\":").spec_bytes(), enc_u64(n));
        },
        None => {},
    }
    let pf = enc_payload_fields(b.payload);
    match b.payload {
        PayloadView::Init { node_id, node_ids } => {
            lemma_nl_enc_str(node_id);
            lemma_nl_enc_id_list(node_ids);
            lemma_nl_concat((",\"node_id\":").spec_bytes(), enc_str(node_id));
            lemma_nl_concat(
                (",\"node_id\":").spec_bytes() + enc_str(node_id),
                (",\"node_ids\":[").spec_bytes(),
            );
            lemma_nl_concat(
                (",\"node_id\":").spec_bytes() + enc_str(node_id) + (
                ",\"node_ids\":[").spec_bytes(),
                enc_id_list(node_ids),
            );
            lemma_nl_concat(
                (",\"node_id\":").spec_bytes() + enc_str(node_id) + (
                ",\"node_ids\":[").spec_bytes() + enc_id_list(node_ids),
                ("]").spec_bytes(),
            );
        },
        PayloadView::InitOk => {},
        PayloadView::Error { code, text } => {
            lemma_nl_enc_u64(code);
            lemma_nl_enc_str(text);
            lemma_nl_concat((",\"code\":").spec_bytes(), enc_u64(code));
            lemma_nl_concat(
                (",\"code\":").spec_bytes() + enc_u64(code),
                (",\"text\":").spec_bytes(),
            );
            lemma_nl_concat(
                (",\"code\":").spec_bytes() + enc_u64(code) + (",\"text\":").spec_bytes(),
                enc_str(text),
            );
        },
        PayloadView::Echo { echo } => {
            lemma_nl_enc_str(echo);
            lemma_nl_concat((",\"echo\":").spec_bytes(), enc_str(echo));
        },
        PayloadView::EchoOk { echo } => {
            lemma_nl_enc_str(echo);
            lemma_nl_concat((",\"echo\":").spec_bytes(), enc_str(echo));
        },
        PayloadView::Other { .. } => {},
    }
    lemma_nl_concat(("{\"type\":").spec_bytes(), k);
    lemma_nl_concat(("{\"type\":").spec_bytes() + k, mf);
    lemma_nl_concat(("{\"type\":").spec_bytes() + k + mf, rf);
    lemma_nl_concat(("{\"type\":").spec_bytes() + k + mf + rf, pf);
    lemma_nl_concat(("{\"type\":").spec_bytes() + k + mf + rf + pf, ("}").spec_bytes());
}

/// An encoded message contains no newline at all, so the newline that
/// `encode_line` appends is the only one in the line: one write of the
/// line is one whole frame, and concurrent writers that each write one
/// whole line can never split a message across lines.
pub proof fn lemma_encode_line_single_line(m: MessageView)
    ensures
        newline_free(enc_msg(m)),
{
    lemma_nl_lits();
    lemma_nl_enc_str(m.src);
    lemma_nl_enc_str(m.dest);
    lemma_nl_enc_body(m.body);
    lemma_nl_concat(("{\"src\":").spec_bytes(), enc_str(m.src));
    lemma_nl_concat(("{\"src\":").spec_bytes() + enc_str(m.src), (",\"dest\":").spec_bytes());
    lemma_nl_concat(
        ("{\"src\":").spec_bytes() + enc_str(m.src) + (",\"dest\":").spec_bytes(),
        enc_str(m.dest),
    );
    lemma_nl_concat(
        ("{\"src\":").spec_bytes() + enc_str(m.src) + (",\"dest\":").spec_bytes() + enc_str(
            m.dest,
        ),
        (",\"body\":").spec_bytes(),
    );
    lemma_nl_concat(
        ("{\"src\":").spec_bytes() + enc_str(m.src) + (",\"dest\":").spec_bytes() + enc_str(
            m.dest,
        ) + (",\"body\":").spec_bytes(),
        enc_body(m.body),
    );
    lemma_nl_concat(
        ("{\"src\":").spec_bytes() + enc_str(m.src) + (",\"dest\":").spec_bytes() + enc_str(
            m.dest,
        ) + (",\"body\":").spec_bytes() + enc_body(m.body),
        ("}").spec_bytes(),
    );
}

// --- The encoder. ---

/// Escaping one more byte extends the escaped prefix.
proof fn lemma_esc_snoc(s: Seq<u8>, i: int)
    requires
        0 <= i < s.len(),
    ensures
        esc_bytes(s.take(i + 1)) == esc_bytes(s.take(i)) + esc_byte(s[i]),
{
    assert(s.take(i + 1).drop_last() =~= s.take(i));
    assert(s.take(i + 1).last() == s[i]);
}

/// Listing one more id extends the encoded list, with a comma once the
/// list is no longer empty.
proof fn lemma_enc_id_snoc(ids: Seq<Seq<u8>>, i: int)
    requires
        0 <= i < ids.len(),
    ensures
        enc_id_list(ids.take(i + 1)) == if i == 0 {
            enc_str(ids[0])
        } else {
            enc_id_list(ids.take(i)) + seq![44u8] + enc_str(ids[i])
        },
{
    assert(ids.take(i + 1).drop_last() =~= ids.take(i));
    assert(ids.take(i + 1).last() == ids[i]);
}

/// Appends a literal's UTF-8 bytes.
fn app_lit(out: &mut Vec<u8>, s: &str)
    ensures
        final(out)@ == old(out)@ + s.spec_bytes(),
{
    let mut v = s.as_bytes_vec();
    out.append(&mut v);
}

/// The lowercase hex digit for a value below 16.
fn hex_digit_exec(d: u8) -> (r: u8)
    requires
        d < 16,
    ensures
        r == hex_digit(d),
{
    if d < 10 {
        48 + d
    } else {
        87 + d
    }
}

/// Appends a string field in its quoted, escaped form.
fn app_str(out: &mut Vec<u8>, s: &Vec<u8>)
    ensures
        final(out)@ == old(out)@ + enc_str(s@),
{
    out.push(34);
    let mut i: usize = 0;
    while i < s.len()
        invariant
            i <= s@.len(),
            out@ == old(out)@ + seq![34u8] + esc_bytes(s@.take(i as int)),
        decreases s@.len() - i,
    {
        proof {
            lemma_esc_snoc(s@, i as int);
        }
        let b = s[i];
        if b == 34 {
            out.push(92);
            out.push(34);
        } else if b == 92 {
            out.push(92);
            out.push(92);
        } else if b == 10 {
            out.push(92);
            out.push(110);
        } else if b == 13 {
            out.push(92);
            out.push(114);
        } else if b == 9 {
            out.push(92);
            out.push(116);
        } else if b < 32 {
            out.push(92);
            out.push(117);
            out.push(48);
            out.push(48);
            out.push(hex_digit_exec(b / 16));
            out.push(hex_digit_exec(b % 16));
        } else {
            out.push(b);
        }
        i = i + 1;
        proof {
            assert(out@ =~= old(out)@ + seq![34u8] + esc_bytes(s@.take(i as int)));
        }
    }
    proof {
        assert(s@.take(s@.len() as int) =~= s@);
    }
    out.push(34);
    proof {
        assert(out@ =~= old(out)@ + enc_str(s@));
    }
}

/// Appends a number in decimal.
fn app_u64(out: &mut Vec<u8>, n: u64)
    ensures
        final(out)@ == old(out)@ + enc_u64(n),
    decreases n,
{
    if n < 10 {
        out.push(48 + n as u8);
        proof {
            assert(out@ =~= old(out)@ + enc_u64(n));
        }
    } else {
        app_u64(out, n / 10);
        out.push(48 + (n % 10) as u8);
        proof {
            assert(out@ =~= old(out)@ + enc_u64(n));
        }
    }
}

/// Appends the comma-separated members of the `node_ids` array.
fn app_id_list(out: &mut Vec<u8>, ids: &Vec<Vec<u8>>)
    ensures
        final(out)@ == old(out)@ + enc_id_list(ids.deep_view()),
{
    let ghost dv = ids.deep_view();
    let mut i: usize = 0;
    while i < ids.len()
        invariant
            i <= ids@.len(),
            dv == ids.deep_view(),
            dv.len() == ids@.len(),
            out@ == old(out)@ + enc_id_list(dv.take(i as int)),
        decreases ids@.len() - i,
    {
        if i > 0 {
            out.push(44);
        }
        app_str(out, &ids[i]);
        proof {
            lemma_enc_id_snoc(dv, i as int);
            assert(ids@[i as int]@ =~= dv[i as int]);
            assert(out@ =~= old(out)@ + enc_id_list(dv.take(i as int + 1)));
        }
        i = i + 1;
    }
    proof {
        assert(dv.take(dv.len() as int) =~= dv);
    }
}

/// Appends the quoted `type` tag of a payload.
fn app_kind(out: &mut Vec<u8>, p: &Payload)
    ensures
        final(out)@ == old(out)@ + kind_lit(p@),
{
    match p {
        Payload::Init { .. } => app_lit(out, "\"init\""),
        Payload::InitOk => app_lit(out, "\"init_ok\""),
        Payload::Error { .. } => app_lit(out, "\"error\""),
        Payload::Echo { .. } => app_lit(out, "\"echo\""),
        Payload::EchoOk { .. } => app_lit(out, "\"echo_ok\""),
        Payload::Other { kind } => app_str(out, kind),
    }
}

/// Appends the `msg_id` member, if present.
fn app_msg_id_field(out: &mut Vec<u8>, o: Option<u64>)
    ensures
        final(out)@ == old(out)@ + enc_msg_id_field(o),
{
    match o {
        Some(n) => {
            app_lit(out, ",\"msg_id\":");
            app_u64(out, n);
            proof {
                assert(out@ =~= old(out)@ + enc_msg_id_field(o));
            }
        },
        None => {},
    }
}

/// Appends the `in_reply_to` member, if present.
fn app_in_reply_to_field(out: &mut Vec<u8>, o: Option<u64>)
    ensures
        final(out)@ == old(out)@ + enc_in_reply_to_field(o),
{
    match o {
        Some(n) => {
            app_lit(out, ",\"in_reply_to\":");
            app_u64(out, n);
            proof {
                assert(out@ =~= old(out)@ + enc_in_reply_to_field(o));
            }
        },
        None => {},
    }
}

/// Appends a payload's own members.
fn app_payload_fields(out: &mut Vec<u8>, p: &Payload)
    ensures
        final(out)@ == old(out)@ + enc_payload_fields(p@),
{
    match p {
        Payload::Init { node_id, node_ids } => {
            app_lit(out, ",\"node_id\":");
            app_str(out, node_id);
            app_lit(out, ",\"node_ids\":[");
            app_id_list(out, node_ids);
            app_lit(out, "]");
            proof {
                assert(out@ =~= old(out)@ + enc_payload_fields(p@));
            }
        },
        Payload::InitOk => {},
        Payload::Error { code, text } => {
            app_lit(out, ",\"code\":");
            app_u64(out, *code);
            app_lit(out, ",\"text\":");
            app_str(out, text);
            proof {
                assert(out@ =~= old(out)@ + enc_payload_fields(p@));
            }
        },
        Payload::Echo { echo } => {
            app_lit(out, ",\"echo\":");
            app_str(out, echo);
            proof {
                assert(out@ =~= old(out)@ + enc_payload_fields(p@));
            }
        },
        Payload::EchoOk { echo } => {
            app_lit(out, ",\"echo\":");
            app_str(out, echo);
            proof {
                assert(out@ =~= old(out)@ + enc_payload_fields(p@));
            }
        },
        Payload::Other { .. } => {},
    }
}

/// Appends a body in the canonical form.
fn app_body(out: &mut Vec<u8>, b: &Body)
    ensures
        final(out)@ == old(out)@ + enc_body(b@),
{
    app_lit(out, "{\"type\":");
    app_kind(out, &b.payload);
    app_msg_id_field(out, b.msg_id);
    app_in_reply_to_field(out, b.in_reply_to);
    app_payload_fields(out, &b.payload);
    app_lit(out, "}");
    proof {
        assert(out@ =~= old(out)@ + enc_body(b@));
    }
}

/// Encodes a message in the canonical wire form, newline not included.
pub fn encode_msg(m: &Message) -> (out: Vec<u8>)
    ensures
        out@ == enc_msg(m@),
{
    let mut out = Vec::new();
    app_lit(&mut out, "{\"src\":");
    app_str(&mut out, &m.src);
    app_lit(&mut out, ",\"dest\":");
    app_str(&mut out, &m.dest);
    app_lit(&mut out, ",\"body\":");
    app_body(&mut out, &m.body);
    app_lit(&mut out, "}");
    proof {
        assert(out@ =~= enc_msg(m@));
    }
    out
}

/// Encodes a message as one full output line, newline included, ready
/// for a single atomic write.
pub fn encode_line(m: &Message) -> (out: Vec<u8>)
    ensures
        out@ == enc_msg(m@) + seq![10u8],
{
    let mut out = encode_msg(m);
    out.push(10);
    proof {
        assert(out@ =~= enc_msg(m@) + seq![10u8]);
    }
    out
}

// --- The canonical grammar, at the specification level. ---

/// A literal at position `i`: the position just past it, or nothing.
pub open spec fn sp_lit(s: Seq<u8>, i: int, lit: Seq<u8>) -> Option<int> {
    if 0 <= i && i + lit.len() <= s.len() && s.subrange(i, i + lit.len()) == lit {
        Some(i + lit.len())
    } else {
        None
    }
}

/// The value of one hex digit, upper or lower case.
pub open spec fn hex_val(b: u8) -> Option<u8> {
    if 48 <= b <= 57 {
        Some((b - 48) as u8)
    } else if 97 <= b <= 102 {
        Some((b - 87) as u8)
    } else if 65 <= b <= 70 {
        Some((b - 55) as u8)
    } else {
        None
    }
}

/// The byte an escape character after a backslash stands for.
pub open spec fn unesc_byte(b: u8) -> Option<u8> {
    if b == 34 {
        Some(34u8)
    } else if b == 92 {
        Some(92u8)
    } else if b == 110 {
        Some(10u8)
    } else if b == 114 {
        Some(13u8)
    } else if b == 116 {
        Some(9u8)
    } else {
        None
    }
}

/// The remainder of a string after its opening quote: the unescaped
/// bytes gathered so far, then either the closing quote or more
/// content. Unescaped control bytes and unknown escapes are malformed.
pub open spec fn sp_str(s: Seq<u8>, i: int, acc: Seq<u8>) -> Option<(Seq<u8>, int)>
    decreases s.len() - i,
    when 0 <= i <= s.len()
{
    if i >= s.len() {
        None
    } else if s[i] == 34 {
        Some((acc, i + 1))
    } else if s[i] == 92 {
        if i + 1 < s.len() && s[i + 1] == 117 {
            // A \u00XX escape for an ASCII byte: two zero digits, then
            // the byte's two hex digits.
            if i + 5 < s.len() && s[i + 2] == 48 && s[i + 3] == 48 {
                match (hex_val(s[i + 4]), hex_val(s[i + 5])) {
                    (Some(h), Some(l)) => {
                        if h < 8 {
                            sp_str(s, i + 6, acc.push((16 * h + l) as u8))
                        } else {
                            None
                        }
                    },
                    _ => None,
                }
            } else {
                None
            }
        } else if i + 1 < s.len() {
            match unesc_byte(s[i + 1]) {
                Some(c) => sp_str(s, i + 2, acc.push(c)),
                None => None,
            }
        } else {
            None
        }
    } else if s[i] < 32 {
        None
    } else {
        sp_str(s, i + 1, acc.push(s[i]))
    }
}

/// A quoted string at position `i`: its unescaped bytes and the
/// position just past the closing quote.
pub open spec fn sp_string(s: Seq<u8>, i: int) -> Option<(Seq<u8>, int)> {
    if 0 <= i < s.len() && s[i] == 34 {
        sp_str(s, i + 1, Seq::empty())
    } else {
        None
    }
}

/// A successfully parsed string piece ends past where it began and
/// within the input.
pub proof fn lemma_sp_str_advances(s: Seq<u8>, i: int, acc: Seq<u8>)
    requires
        0 <= i <= s.len(),
    ensures
        sp_str(s, i, acc) matches Some((v, j)) ==> i < j <= s.len(),
    decreases s.len() - i,
{
    if i < s.len() {
        if s[i] == 34 {
        } else if s[i] == 92 {
            if i + 1 < s.len() && s[i + 1] == 117 {
                if i + 5 < s.len() && s[i + 2] == 48 && s[i + 3] == 48 {
                    match (hex_val(s[i + 4]), hex_val(s[i + 5])) {
                        (Some(h), Some(l)) => {
                            if h < 8 {
                                lemma_sp_str_advances(s, i + 6, acc.push((16 * h + l) as u8));
                            }
                        },
                        _ => {},
                    }
                }
            } else if i + 1 < s.len() {
                match unesc_byte(s[i + 1]) {
                    Some(c) => lemma_sp_str_advances(s, i + 2, acc.push(c)),
                    None => {},
                }
            }
        } else if s[i] >= 32 {
            lemma_sp_str_advances(s, i + 1, acc.push(s[i]));
        }
    }
}

/// A successfully parsed string ends past where it began and within
/// the input.
pub proof fn lemma_sp_string_advances(s: Seq<u8>, i: int)
    requires
        0 <= i <= s.len(),
    ensures
        sp_string(s, i) matches Some((v, j)) ==> i < j <= s.len(),
{
    if 0 <= i < s.len() && s[i] == 34 {
        lemma_sp_str_advances(s, i + 1, Seq::empty());
    }
}

/// More decimal digits, folded left into `acc`; a value past the
/// 64-bit range is malformed. Ends at the first non-digit.
pub open spec fn sp_digits(s: Seq<u8>, i: int, acc: u64) -> Option<(u64, int)>
    decreases s.len() - i,
    when 0 <= i <= s.len()
{
    if i < s.len() && 48 <= s[i] <= 57 {
        let d = (s[i] - 48) as u64;
        if acc > (u64::MAX - d) / 10 {
            None
        } else {
            sp_digits(s, i + 1, (10 * acc + d) as u64)
        }
    } else {
        Some((acc, i))
    }
}

/// An unsigned decimal number at position `i`: at least one digit.
pub open spec fn sp_u64(s: Seq<u8>, i: int) -> Option<(u64, int)> {
    if 0 <= i < s.len() && 48 <= s[i] <= 57 {
        sp_digits(s, i + 1, (s[i] - 48) as u64)
    } else {
        None
    }
}

/// The kind a wire `type` name denotes: one of the core's own, or the
/// open end of the union.
pub open spec fn kind_of_name(name: Seq<u8>) -> Kind {
    if name == ("init").spec_bytes() {
        Kind::Init
    } else if name == ("init_ok").spec_bytes() {
        Kind::InitOk
    } else if name == ("error").spec_bytes() {
        Kind::Error
    } else if name == ("echo").spec_bytes() {
        Kind::Echo
    } else if name == ("echo_ok").spec_bytes() {
        Kind::EchoOk
    } else {
        Kind::Other
    }
}

/// A byte that may appear in a JSON number (skipped, not validated).
pub open spec fn is_num_byte(b: u8) -> bool {
    48 <= b <= 57 || b == 45 || b == 43 || b == 46 || b == 101 || b == 69
}

/// The end of a maximal run of number bytes.
pub open spec fn sp_num_end(s: Seq<u8>, i: int) -> int
    decreases s.len() - i,
    when 0 <= i <= s.len()
{
    if i < s.len() && is_num_byte(s[i]) {
        sp_num_end(s, i + 1)
    } else {
        i
    }
}

/// Skips one JSON value of any shape — string, number, `true`,
/// `false`, `null`, object or array — without interpreting it: the
/// position just past it, or nothing if it is malformed. `fuel` bounds
/// the nesting and always suffices at the input's length.
pub open spec fn sp_skip_value(s: Seq<u8>, i: int, fuel: nat) -> Option<int>
    decreases fuel,
{
    if fuel == 0 {
        None
    } else if !(0 <= i < s.len()) {
        None
    } else if s[i] == 34 {
        match sp_str(s, i + 1, Seq::empty()) {
            Some((v, j)) => Some(j),
            None => None,
        }
    } else if s[i] == 116 {
        sp_lit(s, i, ("true").spec_bytes())
    } else if s[i] == 102 {
        sp_lit(s, i, ("false").spec_bytes())
    } else if s[i] == 110 {
        sp_lit(s, i, ("null").spec_bytes())
    } else if s[i] == 123 {
        sp_skip_object(s, i + 1, (fuel - 1) as nat)
    } else if s[i] == 91 {
        sp_skip_array(s, i + 1, (fuel - 1) as nat)
    } else if is_num_byte(s[i]) {
        Some(sp_num_end(s, i + 1))
    } else {
        None
    }
}

/// Skips the members of an object after its opening brace.
pub open spec fn sp_skip_object(s: Seq<u8>, i: int, fuel: nat) -> Option<int>
    decreases fuel,
{
    if fuel == 0 {
        None
    } else if 0 <= i < s.len() && s[i] == 125 {
        Some(i + 1)
    } else {
        match sp_string(s, i) {
            Some((k, j)) => if j < s.len() && s[j] == 58 {
                match sp_skip_value(s, j + 1, (fuel - 1) as nat) {
                    Some(j2) => if j2 < s.len() && s[j2] == 44 {
                        sp_skip_object(s, j2 + 1, (fuel - 1) as nat)
                    } else if j2 < s.len() && s[j2] == 125 {
                        Some(j2 + 1)
                    } else {
                        None
                    },
                    None => None,
                }
            } else {
                None
            },
            None => None,
        }
    }
}

/// Skips the elements of an array after its opening bracket.
pub open spec fn sp_skip_array(s: Seq<u8>, i: int, fuel: nat) -> Option<int>
    decreases fuel,
{
    if fuel == 0 {
        None
    } else if 0 <= i < s.len() && s[i] == 93 {
        Some(i + 1)
    } else {
        match sp_skip_value(s, i, (fuel - 1) as nat) {
            Some(j) => if j < s.len() && s[j] == 44 {
                sp_skip_array(s, j + 1, (fuel - 1) as nat)
            } else if j < s.len() && s[j] == 93 {
                Some(j + 1)
            } else {
                None
            },
            None => None,
        }
    }
}

/// Skips zero or more further members — `,"key":<value>` — of an
/// unknown kind's body, stopping before the closing brace. The members
/// are skipped unexamined, as the open union asks.
pub open spec fn sp_extra_members(s: Seq<u8>, i: int, fuel: nat) -> Option<int>
    decreases fuel,
{
    if 0 <= i < s.len() && s[i] == 44 {
        if fuel == 0 {
            None
        } else {
            match sp_string(s, i + 1) {
                Some((k, j)) => if j < s.len() && s[j] == 58 {
                    match sp_skip_value(s, j + 1, (fuel - 1) as nat) {
                        Some(j2) => sp_extra_members(s, j2, (fuel - 1) as nat),
                        None => None,
                    }
                } else {
                    None
                },
                None => None,
            }
        }
    } else {
        Some(i)
    }
}

/// An optional numeric member introduced by `key`: its value and the
/// position reached, with no progress when the key is absent.
pub open spec fn sp_opt_num(s: Seq<u8>, i: int, key: Seq<u8>) -> Option<(Option<u64>, int)> {
    match sp_lit(s, i, key) {
        Some(j) => match sp_u64(s, j) {
            Some((n, j2)) => Some((Some(n), j2)),
            None => None,
        },
        None => Some((None, i)),
    }
}

/// The members of a `node_ids` array after the first id, each
/// introduced by a comma, up to the closing bracket.
pub open spec fn sp_id_rest(s: Seq<u8>, i: int, acc: Seq<Seq<u8>>) -> Option<(Seq<Seq<u8>>, int)>
    decreases s.len() - i,
    when 0 <= i <= s.len()
{
    if i < s.len() && s[i] == 93 {
        Some((acc, i + 1))
    } else if i < s.len() && s[i] == 44 {
        match sp_string(s, i + 1) {
            Some((x, j)) => {
                proof {
                    lemma_sp_string_advances(s, i + 1);
                }
                sp_id_rest(s, j, acc.push(x))
            },
            None => None,
        }
    } else {
        None
    }
}

/// A `node_ids` array after its opening bracket: the ids and the
/// position just past the closing bracket.
pub open spec fn sp_id_list(s: Seq<u8>, i: int) -> Option<(Seq<Seq<u8>>, int)> {
    if 0 <= i < s.len() && s[i] == 93 {
        Some((Seq::empty(), i + 1))
    } else {
        match sp_string(s, i) {
            Some((first, j)) => sp_id_rest(s, j, seq![first]),
            None => None,
        }
    }
}

/// A payload's own members, which the kind named in `type` dictates.
/// An unknown kind's members are skipped unexamined and the payload
/// keeps only the kind's name.
pub open spec fn sp_payload(s: Seq<u8>, i: int, name: Seq<u8>) -> Option<(PayloadView, int)> {
    match kind_of_name(name) {
        Kind::Init => match sp_lit(s, i, (",\"node_id\":").spec_bytes()) {
            Some(j) => match sp_string(s, j) {
                Some((nid, j2)) => match sp_lit(s, j2, (",\"node_ids\":[").spec_bytes()) {
                    Some(j3) => match sp_id_list(s, j3) {
                        Some((ids, j4)) => Some(
                            (PayloadView::Init { node_id: nid, node_ids: ids }, j4),
                        ),
                        None => None,
                    },
                    None => None,
                },
                None => None,
            },
            None => None,
        },
        Kind::InitOk => Some((PayloadView::InitOk, i)),
        Kind::Error => match sp_lit(s, i, (",\"code\":").spec_bytes()) {
            Some(j) => match sp_u64(s, j) {
                Some((code, j2)) => match sp_lit(s, j2, (",\"text\":").spec_bytes()) {
                    Some(j3) => match sp_string(s, j3) {
                        Some((text, j4)) => Some((PayloadView::Error { code, text }, j4)),
                        None => None,
                    },
                    None => None,
                },
                None => None,
            },
            None => None,
        },
        Kind::Echo => match sp_lit(s, i, (",\"echo\":").spec_bytes()) {
            Some(j) => match sp_string(s, j) {
                Some((echo, j2)) => Some((PayloadView::Echo { echo }, j2)),
                None => None,
            },
            None => None,
        },
        Kind::EchoOk => match sp_lit(s, i, (",\"echo\":").spec_bytes()) {
            Some(j) => match sp_string(s, j) {
                Some((echo, j2)) => Some((PayloadView::EchoOk { echo }, j2)),
                None => None,
            },
            None => None,
        },
        Kind::Other => match sp_extra_members(s, i, s.len()) {
            Some(j) => Some((PayloadView::Other { kind: name }, j)),
            None => None,
        },
    }
}

/// A body at position `i`: its mathematical value and the position
/// just past its closing brace.
pub open spec fn sp_body(s: Seq<u8>, i: int) -> Option<(BodyView, int)> {
    match sp_lit(s, i, ("{\"type\":").spec_bytes()) {
        Some(j) => match sp_string(s, j) {
            Some((name, j1)) => match sp_opt_num(s, j1, (",\"msg_id\":").spec_bytes()) {
                Some((msg_id, j2)) => match sp_opt_num(
                    s,
                    j2,
                    (",\"in_reply_to\":").spec_bytes(),
                ) {
                    Some((in_reply_to, j3)) => match sp_payload(s, j3, name) {
                        Some((payload, j4)) => match sp_lit(s, j4, ("}").spec_bytes()) {
                            Some(j5) => Some((BodyView { msg_id, in_reply_to, payload }, j5)),
                            None => None,
                        },
                        None => None,
                    },
                    None => None,
                },
                None => None,
            },
            None => None,
        },
        None => None,
    }
}

/// A whole line, newline not included: the message it canonically
/// encodes, provided the line holds nothing else.
pub open spec fn sp_msg(s: Seq<u8>) -> Option<MessageView> {
    match sp_lit(s, 0, ("{\"src\":").spec_bytes()) {
        Some(i1) => match sp_string(s, i1) {
            Some((src, i2)) => match sp_lit(s, i2, (",\"dest\":").spec_bytes()) {
                Some(i3) => match sp_string(s, i3) {
                    Some((dest, i4)) => match sp_lit(s, i4, (",\"body\":").spec_bytes()) {
                        Some(i5) => match sp_body(s, i5) {
                            Some((body, i6)) => match sp_lit(s, i6, ("}").spec_bytes()) {
                                Some(i7) => if i7 == s.len() {
                                    Some(MessageView { src, dest, body })
                                } else {
                                    None
                                },
                                None => None,
                            },
                            None => None,
                        },
                        None => None,
                    },
                    None => None,
                },
                None => None,
            },
            None => None,
        },
        None => None,
    }
}

// --- The parser. ---

/// Fitting one more digit under the accumulator bound keeps the value
/// within the 64-bit range.
proof fn lemma_digit_fits(acc: u64, d: u64)
    requires
        d <= 9,
        acc <= (u64::MAX - d) / 10,
    ensures
        acc * 10 + d <= u64::MAX,
{
    assert(acc * 10 <= ((u64::MAX - d) / 10) * 10) by (nonlinear_arith)
        requires
            acc <= (u64::MAX - d) / 10,
    ;
    assert(((u64::MAX - d) / 10) * 10 <= u64::MAX - d) by (nonlinear_arith);
}

/// The value of one hex digit, upper or lower case.
fn hex_val_exec(b: u8) -> (r: Option<u8>)
    ensures
        r == hex_val(b),
{
    if 48 <= b && b <= 57 {
        Some(b - 48)
    } else if 97 <= b && b <= 102 {
        Some(b - 87)
    } else if 65 <= b && b <= 70 {
        Some(b - 55)
    } else {
        None
    }
}

/// The byte an escape character stands for.
fn unesc_exec(b: u8) -> (r: Option<u8>)
    ensures
        r == unesc_byte(b),
{
    if b == 34 {
        Some(34)
    } else if b == 92 {
        Some(92)
    } else if b == 110 {
        Some(10)
    } else if b == 114 {
        Some(13)
    } else if b == 116 {
        Some(9)
    } else {
        None
    }
}

/// Consumes the given literal at position `i`, if it is there.
fn eat_lit(s: &Vec<u8>, i: usize, lit: &str) -> (r: Option<usize>)
    requires
        i <= s@.len(),
    ensures
        match r {
            Some(j) => sp_lit(s@, i as int, lit.spec_bytes()) == Some(j as int) && i <= j
                <= s@.len(),
            None => sp_lit(s@, i as int, lit.spec_bytes()) is None,
        },
{
    let litv = lit.as_bytes_vec();
    let n = s.len();
    if litv.len() > n - i {
        return None;
    }
    let mut k: usize = 0;
    while k < litv.len()
        invariant
            k <= litv@.len(),
            i + litv@.len() <= s@.len(),
            s@.len() == n,
            litv@ == lit.spec_bytes(),
            forall|m: int| 0 <= m < k ==> s@[i + m] == litv@[m],
        decreases litv@.len() - k,
    {
        if s[i + k] != litv[k] {
            proof {
                let sub = s@.subrange(i as int, i + litv@.len());
                if sub == litv@ {
                    assert(sub[k as int] == s@[i + k]);
                    assert(false);
                }
            }
            return None;
        }
        k = k + 1;
    }
    proof {
        assert(s@.subrange(i as int, i + litv@.len()) =~= litv@);
    }
    Some(i + litv.len())
}

/// Parses a quoted string at position `i` into its unescaped bytes.
fn p_string(s: &Vec<u8>, i: usize) -> (r: Option<(Vec<u8>, usize)>)
    requires
        i <= s@.len(),
    ensures
        match r {
            Some((v, j)) => sp_string(s@, i as int) == Some((v@, j as int)) && i < j <= s@.len(),
            None => sp_string(s@, i as int) is None,
        },
{
    if i < s.len() && s[i] == 34 {
        let mut acc: Vec<u8> = Vec::new();
        let mut cur: usize = i + 1;
        loop
            invariant
                i + 1 <= cur <= s@.len(),
                i < s@.len(),
                s@[i as int] == 34,
                sp_str(s@, cur as int, acc@) == sp_str(s@, i + 1, Seq::<u8>::empty()),
            decreases s@.len() - cur,
        {
            if cur >= s.len() {
                return None;
            }
            let b = s[cur];
            if b == 34 {
                return Some((acc, cur + 1));
            } else if b == 92 {
                if cur + 1 < s.len() && s[cur + 1] == 117 {
                    if s.len() - cur > 5 && s[cur + 2] == 48 && s[cur + 3] == 48 {
                        match (hex_val_exec(s[cur + 4]), hex_val_exec(s[cur + 5])) {
                            (Some(h), Some(l)) => {
                                if h < 8 {
                                    let c = 16 * h + l;
                                    proof {
                                        assert(sp_str(s@, cur as int, acc@) == sp_str(
                                            s@,
                                            cur + 6,
                                            acc@.push(c),
                                        ));
                                    }
                                    acc.push(c);
                                    cur = cur + 6;
                                } else {
                                    return None;
                                }
                            },
                            _ => {
                                return None;
                            },
                        }
                    } else {
                        return None;
                    }
                } else if cur + 1 < s.len() {
                    match unesc_exec(s[cur + 1]) {
                        Some(c) => {
                            proof {
                                assert(sp_str(s@, cur as int, acc@) == sp_str(
                                    s@,
                                    cur + 2,
                                    acc@.push(c),
                                ));
                            }
                            acc.push(c);
                            cur = cur + 2;
                        },
                        None => {
                            return None;
                        },
                    }
                } else {
                    return None;
                }
            } else if b < 32 {
                return None;
            } else {
                proof {
                    assert(sp_str(s@, cur as int, acc@) == sp_str(s@, cur + 1, acc@.push(b)));
                }
                acc.push(b);
                cur = cur + 1;
            }
        }
    } else {
        None
    }
}

/// Parses an unsigned decimal number at position `i`.
fn p_u64(s: &Vec<u8>, i: usize) -> (r: Option<(u64, usize)>)
    requires
        i <= s@.len(),
    ensures
        match r {
            Some((n, j)) => sp_u64(s@, i as int) == Some((n, j as int)) && i < j <= s@.len(),
            None => sp_u64(s@, i as int) is None,
        },
{
    if i < s.len() && 48 <= s[i] && s[i] <= 57 {
        let mut acc: u64 = (s[i] - 48) as u64;
        let mut cur: usize = i + 1;
        loop
            invariant
                i + 1 <= cur <= s@.len(),
                i < s@.len(),
                48 <= s@[i as int] <= 57,
                sp_digits(s@, cur as int, acc) == sp_digits(s@, i + 1, (s@[i as int] - 48) as u64),
            decreases s@.len() - cur,
        {
            if cur >= s.len() {
                return Some((acc, cur));
            }
            let b = s[cur];
            if 48 <= b && b <= 57 {
                let d = (b - 48) as u64;
                if acc > (u64::MAX - d) / 10 {
                    return None;
                }
                proof {
                    lemma_digit_fits(acc, d);
                    assert(sp_digits(s@, cur as int, acc) == sp_digits(
                        s@,
                        cur + 1,
                        (10 * acc + d) as u64,
                    ));
                }
                acc = 10 * acc + d;
                cur = cur + 1;
            } else {
                return Some((acc, cur));
            }
        }
    } else {
        None
    }
}

/// Whether a byte string holds exactly a literal's bytes.
fn bytes_eq_lit(a: &Vec<u8>, lit: &str) -> (r: bool)
    ensures
        r <==> a@ == lit.spec_bytes(),
{
    let v = lit.as_bytes_vec();
    bytes_eq(a, &v)
}

/// The kind a wire `type` name denotes.
fn classify_kind(name: &Vec<u8>) -> (k: Kind)
    ensures
        k == kind_of_name(name@),
{
    if bytes_eq_lit(name, "init") {
        Kind::Init
    } else if bytes_eq_lit(name, "init_ok") {
        Kind::InitOk
    } else if bytes_eq_lit(name, "error") {
        Kind::Error
    } else if bytes_eq_lit(name, "echo") {
        Kind::Echo
    } else if bytes_eq_lit(name, "echo_ok") {
        Kind::EchoOk
    } else {
        Kind::Other
    }
}

/// Whether a byte may appear in a JSON number.
fn is_num_byte_exec(b: u8) -> (r: bool)
    ensures
        r == is_num_byte(b),
{
    (48 <= b && b <= 57) || b == 45 || b == 43 || b == 46 || b == 101 || b == 69
}

/// Advances past a maximal run of number bytes.
fn p_num_end(s: &Vec<u8>, i: usize) -> (r: usize)
    requires
        i <= s@.len(),
    ensures
        r == sp_num_end(s@, i as int),
        i <= r <= s@.len(),
{
    let mut cur: usize = i;
    while cur < s.len() && is_num_byte_exec(s[cur])
        invariant
            i <= cur <= s@.len(),
            sp_num_end(s@, i as int) == sp_num_end(s@, cur as int),
        decreases s@.len() - cur,
    {
        cur = cur + 1;
    }
    cur
}

/// Skips one JSON value of any shape.
fn p_skip_value(s: &Vec<u8>, i: usize, fuel: usize) -> (r: Option<usize>)
    requires
        i <= s@.len(),
    ensures
        match r {
            Some(j) => sp_skip_value(s@, i as int, fuel as nat) == Some(j as int) && j <= s@.len(),
            None => sp_skip_value(s@, i as int, fuel as nat) is None,
        },
    decreases fuel,
{
    if fuel == 0 {
        return None;
    }
    if i >= s.len() {
        return None;
    }
    let b = s[i];
    if b == 34 {
        match p_string(s, i) {
            Some((_v, j)) => Some(j),
            None => None,
        }
    } else if b == 116 {
        eat_lit(s, i, "true")
    } else if b == 102 {
        eat_lit(s, i, "false")
    } else if b == 110 {
        eat_lit(s, i, "null")
    } else if b == 123 {
        p_skip_object(s, i + 1, fuel - 1)
    } else if b == 91 {
        p_skip_array(s, i + 1, fuel - 1)
    } else if is_num_byte_exec(b) {
        Some(p_num_end(s, i + 1))
    } else {
        None
    }
}

/// Skips the members of an object after its opening brace.
fn p_skip_object(s: &Vec<u8>, i: usize, fuel: usize) -> (r: Option<usize>)
    requires
        i <= s@.len(),
    ensures
        match r {
            Some(j) => sp_skip_object(s@, i as int, fuel as nat) == Some(j as int) && j <= s@.len(),
            None => sp_skip_object(s@, i as int, fuel as nat) is None,
        },
    decreases fuel,
{
    if fuel == 0 {
        return None;
    }
    if i < s.len() && s[i] == 125 {
        return Some(i + 1);
    }
    match p_string(s, i) {
        Some((_k, j)) => {
            if j < s.len() && s[j] == 58 {
                match p_skip_value(s, j + 1, fuel - 1) {
                    Some(j2) => {
                        if j2 < s.len() && s[j2] == 44 {
                            p_skip_object(s, j2 + 1, fuel - 1)
                        } else if j2 < s.len() && s[j2] == 125 {
                            Some(j2 + 1)
                        } else {
                            None
                        }
                    },
                    None => None,
                }
            } else {
                None
            }
        },
        None => None,
    }
}

/// Skips the elements of an array after its opening bracket.
fn p_skip_array(s: &Vec<u8>, i: usize, fuel: usize) -> (r: Option<usize>)
    requires
        i <= s@.len(),
    ensures
        match r {
            Some(j) => sp_skip_array(s@, i as int, fuel as nat) == Some(j as int) && j <= s@.len(),
            None => sp_skip_array(s@, i as int, fuel as nat) is None,
        },
    decreases fuel,
{
    if fuel == 0 {
        return None;
    }
    if i < s.len() && s[i] == 93 {
        return Some(i + 1);
    }
    match p_skip_value(s, i, fuel - 1) {
        Some(j) => {
            if j < s.len() && s[j] == 44 {
                p_skip_array(s, j + 1, fuel - 1)
            } else if j < s.len() && s[j] == 93 {
                Some(j + 1)
            } else {
                None
            }
        },
        None => None,
    }
}

/// Skips an unknown kind's further members, stopping before the
/// closing brace.
fn p_extra_members(s: &Vec<u8>, i: usize, fuel: usize) -> (r: Option<usize>)
    requires
        i <= s@.len(),
    ensures
        match r {
            Some(j) => sp_extra_members(s@, i as int, fuel as nat) == Some(j as int) && j
                <= s@.len(),
            None => sp_extra_members(s@, i as int, fuel as nat) is None,
        },
    decreases fuel,
{
    if i < s.len() && s[i] == 44 {
        if fuel == 0 {
            return None;
        }
        match p_string(s, i + 1) {
            Some((_k, j)) => {
                if j < s.len() && s[j] == 58 {
                    match p_skip_value(s, j + 1, fuel - 1) {
                        Some(j2) => p_extra_members(s, j2, fuel - 1),
                        None => None,
                    }
                } else {
                    None
                }
            },
            None => None,
        }
    } else {
        Some(i)
    }
}

/// Parses an optional numeric member introduced by `key`.
fn p_opt_num(s: &Vec<u8>, i: usize, key: &str) -> (r: Option<(Option<u64>, usize)>)
    requires
        i <= s@.len(),
    ensures
        match r {
            Some((n, j)) => sp_opt_num(s@, i as int, key.spec_bytes()) == Some((n, j as int)) && i
                <= j <= s@.len(),
            None => sp_opt_num(s@, i as int, key.spec_bytes()) is None,
        },
{
    match eat_lit(s, i, key) {
        Some(j) => match p_u64(s, j) {
            Some((n, j2)) => Some((Some(n), j2)),
            None => None,
        },
        None => Some((None, i)),
    }
}

/// Parses the members of a `node_ids` array after its opening bracket.
fn p_id_list(s: &Vec<u8>, i: usize) -> (r: Option<(Vec<Vec<u8>>, usize)>)
    requires
        i <= s@.len(),
    ensures
        match r {
            Some((v, j)) => sp_id_list(s@, i as int) == Some((v.deep_view(), j as int)) && i < j
                <= s@.len(),
            None => sp_id_list(s@, i as int) is None,
        },
{
    if i < s.len() && s[i] == 93 {
        let v: Vec<Vec<u8>> = Vec::new();
        proof {
            assert(v.deep_view() =~= Seq::<Seq<u8>>::empty());
        }
        return Some((v, i + 1));
    }
    match p_string(s, i) {
        None => None,
        Some((first, j0)) => {
            let ghost firstv = first@;
            let mut acc: Vec<Vec<u8>> = Vec::new();
            acc.push(first);
            proof {
                assert(acc.deep_view() =~~= seq![firstv]);
            }
            let mut cur: usize = j0;
            loop
                invariant
                    i < cur <= s@.len(),
                    sp_id_rest(s@, cur as int, acc.deep_view()) == sp_id_list(s@, i as int),
                decreases s@.len() - cur,
            {
                if cur < s.len() && s[cur] == 93 {
                    return Some((acc, cur + 1));
                }
                if cur < s.len() && s[cur] == 44 {
                    match p_string(s, cur + 1) {
                        Some((x, j2)) => {
                            let ghost xv = x@;
                            let ghost accdv = acc.deep_view();
                            proof {
                                assert(sp_id_rest(s@, cur as int, accdv) == sp_id_rest(
                                    s@,
                                    j2 as int,
                                    accdv.push(xv),
                                ));
                            }
                            acc.push(x);
                            proof {
                                assert(acc.deep_view() =~~= accdv.push(xv));
                            }
                            cur = j2;
                        },
                        None => {
                            return None;
                        },
                    }
                } else {
                    return None;
                }
            }
        },
    }
}

/// Parses a payload's own members, as the kind named in `type`
/// dictates; an unknown kind's members are skipped unexamined.
fn p_payload(s: &Vec<u8>, i: usize, name: &Vec<u8>) -> (r: Option<(Payload, usize)>)
    requires
        i <= s@.len(),
    ensures
        match r {
            Some((p, j)) => sp_payload(s@, i as int, name@) == Some((p@, j as int)) && j
                <= s@.len(),
            None => sp_payload(s@, i as int, name@) is None,
        },
{
    match classify_kind(name) {
        Kind::Init => match eat_lit(s, i, ",\"node_id\":") {
            Some(j) => match p_string(s, j) {
                Some((nid, j2)) => match eat_lit(s, j2, ",\"node_ids\":[") {
                    Some(j3) => match p_id_list(s, j3) {
                        Some((ids, j4)) => Some(
                            (Payload::Init { node_id: nid, node_ids: ids }, j4),
                        ),
                        None => None,
                    },
                    None => None,
                },
                None => None,
            },
            None => None,
        },
        Kind::InitOk => Some((Payload::InitOk, i)),
        Kind::Error => match eat_lit(s, i, ",\"code\":") {
            Some(j) => match p_u64(s, j) {
                Some((code, j2)) => match eat_lit(s, j2, ",\"text\":") {
                    Some(j3) => match p_string(s, j3) {
                        Some((text, j4)) => Some((Payload::Error { code, text }, j4)),
                        None => None,
                    },
                    None => None,
                },
                None => None,
            },
            None => None,
        },
        Kind::Echo => match eat_lit(s, i, ",\"echo\":") {
            Some(j) => match p_string(s, j) {
                Some((echo, j2)) => Some((Payload::Echo { echo }, j2)),
                None => None,
            },
            None => None,
        },
        Kind::EchoOk => match eat_lit(s, i, ",\"echo\":") {
            Some(j) => match p_string(s, j) {
                Some((echo, j2)) => Some((Payload::EchoOk { echo }, j2)),
                None => None,
            },
            None => None,
        },
        Kind::Other => match p_extra_members(s, i, s.len()) {
            Some(j) => Some((Payload::Other { kind: copy_bytes(name) }, j)),
            None => None,
        },
    }
}

/// Parses a body at position `i`.
fn p_body(s: &Vec<u8>, i: usize) -> (r: Option<(Body, usize)>)
    requires
        i <= s@.len(),
    ensures
        match r {
            Some((b, j)) => sp_body(s@, i as int) == Some((b@, j as int)) && j <= s@.len(),
            None => sp_body(s@, i as int) is None,
        },
{
    match eat_lit(s, i, "{\"type\":") {
        Some(j) => match p_string(s, j) {
            Some((name, j1)) => match p_opt_num(s, j1, ",\"msg_id\":") {
                Some((msg_id, j2)) => match p_opt_num(s, j2, ",\"in_reply_to\":") {
                    Some((in_reply_to, j3)) => match p_payload(s, j3, &name) {
                        Some((payload, j4)) => match eat_lit(s, j4, "}") {
                            Some(j5) => Some((Body { msg_id, in_reply_to, payload }, j5)),
                            None => None,
                        },
                        None => None,
                    },
                    None => None,
                },
                None => None,
            },
            None => None,
        },
        None => None,
    }
}

/// Parses one input line, newline not included, into the message it
/// canonically encodes. Any line that is not a canonical encoding is
/// rejected as malformed — the caller decides whether to skip it or to
/// answer it; it never terminates the stream.
pub fn parse_line(line: &Vec<u8>) -> (r: Result<Message, ErrorCode>)
    ensures
        match r {
            Ok(m) => sp_msg(line@) == Some(m@),
            Err(e) => e == ErrorCode::Malformed && sp_msg(line@) is None,
        },
{
    match eat_lit(line, 0, "{\"src\":") {
        Some(i1) => match p_string(line, i1) {
            Some((src, i2)) => match eat_lit(line, i2, ",\"dest\":") {
                Some(i3) => match p_string(line, i3) {
                    Some((dest, i4)) => match eat_lit(line, i4, ",\"body\":") {
                        Some(i5) => match p_body(line, i5) {
                            Some((body, i6)) => match eat_lit(line, i6, "}") {
                                Some(i7) => {
                                    if i7 == line.len() {
                                        Ok(Message { src, dest, body })
                                    } else {
                                        Err(ErrorCode::Malformed)
                                    }
                                },
                                None => Err(ErrorCode::Malformed),
                            },
                            None => Err(ErrorCode::Malformed),
                        },
                        None => Err(ErrorCode::Malformed),
                    },
                    None => Err(ErrorCode::Malformed),
                },
                None => Err(ErrorCode::Malformed),
            },
            None => Err(ErrorCode::Malformed),
        },
        None => Err(ErrorCode::Malformed),
    }
}

} // verus!
