//! The wire format of signaling messages: a tagged JSON object, one of
//!
//! ```text
//! {"type":"offer","sdp":"<text>"}
//! {"type":"answer","sdp":"<text>"}
//! {"type":"ice-candidate","candidate":<raw JSON value>}
//! ```
//!
//! [`parse_spec`] is the definition of what a request body must look like to
//! be accepted; anything else is malformed and rejected before it can reach
//! the mailbox. The grammar is deliberately byte-exact, so that the
//! contracts can be too: the keys stand in the order shown, with no
//! whitespace between tokens, and the `sdp` text carries exactly the JSON
//! string escapes for quote, backslash, solidus, newline, carriage return
//! and tab — no `\uXXXX` form, and any other control byte is rejected. A
//! body in another JSON spelling of the same object (reordered keys, added
//! whitespace) is rejected as malformed; clients send the canonical form.
//! The candidate is kept as the raw bytes of its JSON value: payloads are
//! opaque to the relay.

use vstd::prelude::*;

use crate::msg::{MessageView, SignalingMessage};

verus! {

/// `{"type":"offer","sdp":"`
pub open spec fn offer_prefix() -> Seq<u8> {
    seq![123u8, 34u8, 116u8, 121u8, 112u8, 101u8, 34u8, 58u8, 34u8, 111u8, 102u8, 102u8, 101u8, 114u8, 34u8, 44u8, 34u8, 115u8, 100u8, 112u8, 34u8, 58u8, 34u8]
}

/// `{"type":"answer","sdp":"`
pub open spec fn answer_prefix() -> Seq<u8> {
    seq![123u8, 34u8, 116u8, 121u8, 112u8, 101u8, 34u8, 58u8, 34u8, 97u8, 110u8, 115u8, 119u8, 101u8, 114u8, 34u8, 44u8, 34u8, 115u8, 100u8, 112u8, 34u8, 58u8, 34u8]
}

/// `{"type":"ice-candidate","candidate":`
pub open spec fn ice_prefix() -> Seq<u8> {
    seq![123u8, 34u8, 116u8, 121u8, 112u8, 101u8, 34u8, 58u8, 34u8, 105u8, 99u8, 101u8, 45u8, 99u8, 97u8, 110u8, 100u8, 105u8, 100u8, 97u8, 116u8, 101u8, 34u8, 44u8, 34u8, 99u8, 97u8, 110u8, 100u8, 105u8, 100u8, 97u8, 116u8, 101u8, 34u8, 58u8]
}

/// A byte that may stand unescaped inside a JSON string: not a control
/// byte, not the quote, not the backslash.
pub open spec fn plain_byte(b: u8) -> bool {
    b >= 0x20 && b != 34 && b != 92
}

/// The byte encoded by the escape `\c`, if `c` is an escape code the relay
/// accepts.
pub open spec fn unescape_code(c: u8) -> Option<u8> {
    if c == 34 {
        Some(34u8)  // \"
    } else if c == 92 {
        Some(92u8)  // \\
    } else if c == 47 {
        Some(47u8)  // \/
    } else if c == 110 {
        Some(10u8)  // \n
    } else if c == 114 {
        Some(13u8)  // \r
    } else if c == 116 {
        Some(9u8)  // \t
    } else {
        Option::None
    }
}

/// How one text byte is written on the wire.
pub open spec fn escape_byte(b: u8) -> Seq<u8> {
    if b == 34 {
        seq![92u8, 34u8]
    } else if b == 92 {
        seq![92u8, 92u8]
    } else if b == 10 {
        seq![92u8, 110u8]
    } else if b == 13 {
        seq![92u8, 114u8]
    } else if b == 9 {
        seq![92u8, 116u8]
    } else {
        seq![b]
    }
}

/// How a whole text is written on the wire.
pub open spec fn escape(s: Seq<u8>) -> Seq<u8>
    decreases s.len(),
{
    if s.len() == 0 {
        Seq::empty()
    } else {
        escape_byte(s[0]) + escape(s.drop_first())
    }
}

/// The exact wire bytes of a message.
pub open spec fn encode_spec(m: MessageView) -> Seq<u8> {
    match m {
        MessageView::Offer { sdp } => offer_prefix() + escape(sdp) + seq![34u8, 125u8],
        MessageView::Answer { sdp } => answer_prefix() + escape(sdp) + seq![34u8, 125u8],
        MessageView::IceCandidate { candidate } => ice_prefix() + candidate + seq![125u8],
    }
}

/// Prepends `a` to a parse result, keeping failure.
pub open spec fn opt_concat(a: Seq<u8>, o: Option<Seq<u8>>) -> Option<Seq<u8>> {
    match o {
        Option::Some(r) => Option::Some(a + r),
        Option::None => Option::None,
    }
}

/// Reads an escaped string body that must run to the closing `"}` of the
/// message, returning the unescaped text. `t` is the part of the body after
/// the opening quote of the text field.
pub open spec fn parse_text_body(t: Seq<u8>) -> Option<Seq<u8>>
    decreases t.len(),
{
    if t.len() == 0 {
        Option::None
    } else if t[0] == 34 {
        if t.len() == 2 && t[1] == 125 {
            Option::Some(Seq::empty())
        } else {
            Option::None
        }
    } else if t[0] == 92 {
        if t.len() >= 2 {
            match unescape_code(t[1]) {
                Option::Some(b) => opt_concat(seq![b], parse_text_body(t.skip(2))),
                Option::None => Option::None,
            }
        } else {
            Option::None
        }
    } else if plain_byte(t[0]) {
        opt_concat(seq![t[0]], parse_text_body(t.drop_first()))
    } else {
        Option::None
    }
}

/// What a request body decodes to, if anything: the whole body must be one
/// of the three tagged shapes, with nothing before or after it. The
/// candidate of an `ice-candidate` message is the raw, non-empty JSON value
/// text between the second colon and the final brace.
pub open spec fn parse_spec(s: Seq<u8>) -> Option<MessageView> {
    if s.len() >= offer_prefix().len() && s.take(offer_prefix().len() as int) == offer_prefix() {
        match parse_text_body(s.skip(offer_prefix().len() as int)) {
            Option::Some(sdp) => Option::Some(MessageView::Offer { sdp }),
            Option::None => Option::None,
        }
    } else if s.len() >= answer_prefix().len() && s.take(answer_prefix().len() as int)
        == answer_prefix() {
        match parse_text_body(s.skip(answer_prefix().len() as int)) {
            Option::Some(sdp) => Option::Some(MessageView::Answer { sdp }),
            Option::None => Option::None,
        }
    } else if s.len() >= ice_prefix().len() + 2 && s.take(ice_prefix().len() as int) == ice_prefix()
        && s[s.len() - 1] == 125 {
        Option::Some(
            MessageView::IceCandidate {
                candidate: s.subrange(ice_prefix().len() as int, s.len() - 1),
            },
        )
    } else {
        Option::None
    }
}

/// The wire bytes of a whole drained queue: a JSON array of the messages in
/// order.
pub open spec fn encode_list_spec(ms: Seq<MessageView>) -> Seq<u8> {
    seq![91u8] + encode_list_items(ms) + seq![93u8]
}

/// The comma-separated items of the array.
pub open spec fn encode_list_items(ms: Seq<MessageView>) -> Seq<u8>
    decreases ms.len(),
{
    if ms.len() == 0 {
        Seq::empty()
    } else if ms.len() == 1 {
        encode_spec(ms[0])
    } else {
        encode_spec(ms[0]) + seq![44u8] + encode_list_items(ms.drop_first())
    }
}

fn offer_prefix_arr() -> (r: [u8; 23])
    ensures
        r@ == offer_prefix(),
{
    let a: [u8; 23] = [
        123u8, 34u8, 116u8, 121u8, 112u8, 101u8, 34u8, 58u8, 34u8, 111u8, 102u8, 102u8, 101u8,
        114u8, 34u8, 44u8, 34u8, 115u8, 100u8, 112u8, 34u8, 58u8, 34u8,
    ];
    proof {
        assert(a@ =~= offer_prefix());
    }
    a
}

fn answer_prefix_arr() -> (r: [u8; 24])
    ensures
        r@ == answer_prefix(),
{
    let a: [u8; 24] = [
        123u8, 34u8, 116u8, 121u8, 112u8, 101u8, 34u8, 58u8, 34u8, 97u8, 110u8, 115u8, 119u8,
        101u8, 114u8, 34u8, 44u8, 34u8, 115u8, 100u8, 112u8, 34u8, 58u8, 34u8,
    ];
    proof {
        assert(a@ =~= answer_prefix());
    }
    a
}

fn ice_prefix_arr() -> (r: [u8; 36])
    ensures
        r@ == ice_prefix(),
{
    let a: [u8; 36] = [
        123u8, 34u8, 116u8, 121u8, 112u8, 101u8, 34u8, 58u8, 34u8, 105u8, 99u8, 101u8, 45u8, 99u8,
        97u8, 110u8, 100u8, 105u8, 100u8, 97u8, 116u8, 101u8, 34u8, 44u8, 34u8, 99u8, 97u8, 110u8,
        100u8, 105u8, 100u8, 97u8, 116u8, 101u8, 34u8, 58u8,
    ];
    proof {
        assert(a@ =~= ice_prefix());
    }
    a
}

/// Whether `body` starts with `lit`.
fn starts_with(body: &[u8], lit: &[u8]) -> (r: bool)
    ensures
        r == (lit@.len() <= body@.len() && body@.take(lit@.len() as int) == lit@),
{
    if lit.len() > body.len() {
        return false;
    }
    let mut i: usize = 0;
    while i < lit.len()
        invariant
            0 <= i <= lit@.len(),
            lit@.len() <= body@.len(),
            forall|k: int| 0 <= k < i ==> body@[k] == lit@[k],
        decreases lit@.len() - i,
    {
        if body[i] != lit[i] {
            proof {
                assert(body@.take(lit@.len() as int)[i as int] != lit@[i as int]);
            }
            return false;
        }
        i = i + 1;
    }
    proof {
        assert(body@.take(lit@.len() as int) =~= lit@);
    }
    true
}

/// Reads the escaped text that must run to the closing `"}` at the very end
/// of `body`, starting at `start`; exactly [`parse_text_body`] of the
/// remainder.
fn parse_text_rest(body: &[u8], start: usize) -> (r: Option<Vec<u8>>)
    requires
        start <= body@.len(),
    ensures
        match r {
            Option::Some(text) => parse_text_body(body@.skip(start as int)) == Option::Some(text@),
            Option::None => parse_text_body(body@.skip(start as int)) is None,
        },
{
    let mut acc: Vec<u8> = Vec::new();
    let mut i: usize = start;
    loop
        invariant
            start <= i <= body@.len(),
            parse_text_body(body@.skip(start as int)) == opt_concat(
                acc@,
                parse_text_body(body@.skip(i as int)),
            ),
        decreases body@.len() - i,
    {
        let ghost t = body@.skip(i as int);
        if i >= body.len() {
            return Option::None;
        }
        let b = body[i];
        assert(t[0] == b);
        if b == 34 {
            if body.len() - i == 2 && body[i + 1] == 125 {
                proof {
                    assert(t.len() == 2 && t[1] == 125);
                    assert(acc@ + Seq::<u8>::empty() =~= acc@);
                }
                return Option::Some(acc);
            } else {
                proof {
                    if t.len() == 2 && t[1] == 125 {
                        assert(i + 2 == body@.len());
                        assert(body@[i + 1] == 125);
                    }
                }
                return Option::None;
            }
        } else if b == 92 {
            if body.len() - i > 1 {
                let c = body[i + 1];
                assert(t[1] == c);
                let u: u8 = if c == 34 {
                    34u8
                } else if c == 92 {
                    92u8
                } else if c == 47 {
                    47u8
                } else if c == 110 {
                    10u8
                } else if c == 114 {
                    13u8
                } else if c == 116 {
                    9u8
                } else {
                    return Option::None;
                };
                proof {
                    assert(unescape_code(c) == Option::Some(u));
                    assert(t.skip(2) =~= body@.skip(i + 2));
                }
                let ghost acc0 = acc@;
                acc.push(u);
                i = i + 2;
                proof {
                    match parse_text_body(body@.skip(i as int)) {
                        Option::Some(rest) => {
                            assert(acc0 + (seq![u] + rest) =~= acc@ + rest);
                        },
                        Option::None => {},
                    }
                }
            } else {
                return Option::None;
            }
        } else if b >= 0x20 && b != 34 && b != 92 {
            proof {
                assert(plain_byte(b));
                assert(t.drop_first() =~= body@.skip(i + 1));
            }
            let ghost acc0 = acc@;
            acc.push(b);
            i = i + 1;
            proof {
                match parse_text_body(body@.skip(i as int)) {
                    Option::Some(rest) => {
                        assert(acc0 + (seq![b] + rest) =~= acc@ + rest);
                    },
                    Option::None => {},
                }
            }
        } else {
            return Option::None;
        }
    }
}

/// Decodes a request body, accepting exactly what [`parse_spec`] accepts:
/// one of the three tagged message shapes and nothing else.
pub fn parse_message(body: &[u8]) -> (r: Option<SignalingMessage>)
    ensures
        match r {
            Option::Some(m) => parse_spec(body@) == Option::Some(m@),
            Option::None => parse_spec(body@) is None,
        },
{
    let op = offer_prefix_arr();
    if starts_with(body, op.as_slice()) {
        return match parse_text_rest(body, op.len()) {
            Option::Some(sdp) => Option::Some(SignalingMessage::Offer { sdp }),
            Option::None => Option::None,
        };
    }
    let ap = answer_prefix_arr();
    if starts_with(body, ap.as_slice()) {
        return match parse_text_rest(body, ap.len()) {
            Option::Some(sdp) => Option::Some(SignalingMessage::Answer { sdp }),
            Option::None => Option::None,
        };
    }
    let ip = ice_prefix_arr();
    if starts_with(body, ip.as_slice()) && body.len() >= ip.len() + 2 && body[body.len() - 1]
        == 125 {
        let raw = vstd::slice::slice_subrange(body, ip.len(), body.len() - 1);
        let candidate = vstd::slice::slice_to_vec(raw);
        return Option::Some(SignalingMessage::IceCandidate { candidate });
    }
    Option::None
}

/// The escaped wire form of `text`.
fn escaped_bytes(text: &Vec<u8>) -> (r: Vec<u8>)
    ensures
        r@ == escape(text@),
{
    let mut out: Vec<u8> = Vec::new();
    let mut i: usize = 0;
    while i < text.len()
        invariant
            0 <= i <= text@.len(),
            out@ == escape(text@.take(i as int)),
        decreases text@.len() - i,
    {
        let b = text[i];
        if b == 34 {
            out.push(92);
            out.push(34);
        } else if b == 92 {
            out.push(92);
            out.push(92);
        } else if b == 10 {
            out.push(92);
            out.push(110);
        } else if b == 13 {
            out.push(92);
            out.push(114);
        } else if b == 9 {
            out.push(92);
            out.push(116);
        } else {
            out.push(b);
        }
        proof {
            lemma_escape_push(text@.take(i as int), b);
            assert(text@.take(i + 1) =~= text@.take(i as int).push(b));
            assert(out@ =~= escape(text@.take(i + 1)));
        }
        i = i + 1;
    }
    proof {
        assert(text@.take(text@.len() as int) =~= text@);
    }
    out
}

/// Escaping goes byte by byte: escaping one more byte appends its wire
/// form.
proof fn lemma_escape_push(s: Seq<u8>, b: u8)
    ensures
        escape(s.push(b)) == escape(s) + escape_byte(b),
    decreases s.len(),
{
    if s.len() == 0 {
        assert(s.push(b).drop_first() =~= s);
        assert(escape(s.push(b)) =~= escape(s) + escape_byte(b));
    } else {
        lemma_escape_push(s.drop_first(), b);
        assert(s.push(b).drop_first() =~= s.drop_first().push(b));
        assert(escape(s.push(b)) =~= escape(s) + escape_byte(b));
    }
}

/// Writes a message in its exact wire form.
pub fn encode_message(m: &SignalingMessage) -> (r: Vec<u8>)
    ensures
        r@ == encode_spec(m@),
{
    match m {
        SignalingMessage::Offer { sdp } => {
            let mut out = slice_vec(offer_prefix_arr().as_slice());
            let mut esc = escaped_bytes(sdp);
            out.append(&mut esc);
            out.push(34);
            out.push(125);
            proof {
                assert(out@ =~= encode_spec(m@));
            }
            out
        },
        SignalingMessage::Answer { sdp } => {
            let mut out = slice_vec(answer_prefix_arr().as_slice());
            let mut esc = escaped_bytes(sdp);
            out.append(&mut esc);
            out.push(34);
            out.push(125);
            proof {
                assert(out@ =~= encode_spec(m@));
            }
            out
        },
        SignalingMessage::IceCandidate { candidate } => {
            let mut out = slice_vec(ice_prefix_arr().as_slice());
            let mut raw = slice_vec(candidate.as_slice());
            out.append(&mut raw);
            out.push(125);
            proof {
                assert(out@ =~= encode_spec(m@));
            }
            out
        },
    }
}

/// Copies a byte slice into a fresh vector.
fn slice_vec(s: &[u8]) -> (r: Vec<u8>)
    ensures
        r@ == s@,
{
    vstd::slice::slice_to_vec(s)
}

/// Writes a whole drained queue as a JSON array, in order.
pub fn encode_message_list(ms: &Vec<SignalingMessage>) -> (r: Vec<u8>)
    ensures
        r@ == encode_list_spec(crate::msg::msgs_view(ms@)),
{
    let mut out: Vec<u8> = Vec::new();
    out.push(91);
    let mut i: usize = 0;
    while i < ms.len()
        invariant
            0 <= i <= ms@.len(),
            out@ == seq![91u8] + encode_list_items(crate::msg::msgs_view(ms@).take(i as int)),
        decreases ms@.len() - i,
    {
        if i > 0 {
            out.push(44);
        }
        let mut piece = encode_message(&ms[i]);
        let ghost piece_bytes = piece@;
        out.append(&mut piece);
        proof {
            let mv = crate::msg::msgs_view(ms@);
            assert(piece_bytes == encode_spec(mv[i as int]));
            assert(mv.take(i + 1) =~= mv.take(i as int).push(mv[i as int]));
            lemma_items_push(mv.take(i as int), mv[i as int]);
            assert(mv[i as int] == ms@[i as int]@);
            if i > 0 {
                assert(out@ =~= seq![91u8] + encode_list_items(mv.take(i + 1)));
            } else {
                assert(mv.take(0int) =~= Seq::<MessageView>::empty());
                assert(out@ =~= seq![91u8] + encode_list_items(mv.take(i + 1)));
            }
        }
        i = i + 1;
    }
    out.push(93);
    proof {
        let mv = crate::msg::msgs_view(ms@);
        assert(mv.take(mv.len() as int) =~= mv);
        assert(out@ =~= encode_list_spec(mv));
    }
    out
}

/// A byte that can appear in an sdp text: anything but a control byte,
/// except the three whitespace controls the wire format can escape.
pub open spec fn text_byte_ok(b: u8) -> bool {
    b >= 0x20 || b == 9 || b == 10 || b == 13
}

/// A text every byte of which the wire format can carry.
pub open spec fn wf_text(s: Seq<u8>) -> bool {
    forall|i: int| 0 <= i < s.len() ==> text_byte_ok(s[i])
}

/// A message the wire format can carry: sdp texts hold no unencodable
/// control byte, and a candidate is non-empty raw JSON text.
pub open spec fn wf_message(m: MessageView) -> bool {
    match m {
        MessageView::Offer { sdp } => wf_text(sdp),
        MessageView::Answer { sdp } => wf_text(sdp),
        MessageView::IceCandidate { candidate } => candidate.len() > 0,
    }
}

/// Unescaping inverts escaping: the wire form of a carryable text, followed
/// by the closing `"}`, reads back as exactly that text.
proof fn lemma_parse_escaped(s: Seq<u8>)
    requires
        wf_text(s),
    ensures
        parse_text_body(escape(s) + seq![34u8, 125u8]) == Option::Some(s),
    decreases s.len(),
{
    let t = escape(s) + seq![34u8, 125u8];
    if s.len() == 0 {
        assert(t =~= seq![34u8, 125u8]);
        assert(s =~= Seq::<u8>::empty());
    } else {
        let b = s[0];
        let rest = s.drop_first();
        lemma_parse_escaped(rest);
        let tail = escape(rest) + seq![34u8, 125u8];
        assert(t =~= escape_byte(b) + tail);
        if b == 34 || b == 92 || b == 10 || b == 13 || b == 9 {
            assert(t[0] == 92);
            assert(unescape_code(t[1]) == Option::Some(b));
            assert(t.skip(2) =~= tail);
            assert(seq![b] + rest =~= s);
        } else {
            assert(text_byte_ok(b));
            assert(escape_byte(b) =~= seq![b]);
            assert(t[0] == b && plain_byte(b));
            assert(t.drop_first() =~= tail);
            assert(seq![b] + rest =~= s);
        }
    }
}

/// Round-trip law: writing any carryable message and reading the bytes back
/// yields exactly that message — the wire format loses nothing.
pub proof fn lemma_round_trip(m: MessageView)
    requires
        wf_message(m),
    ensures
        parse_spec(encode_spec(m)) == Option::Some(m),
{
    let s = encode_spec(m);
    match m {
        MessageView::Offer { sdp } => {
            assert(s.take(offer_prefix().len() as int) =~= offer_prefix());
            assert(s.skip(offer_prefix().len() as int) =~= escape(sdp) + seq![34u8, 125u8]);
            lemma_parse_escaped(sdp);
        },
        MessageView::Answer { sdp } => {
            assert(s[9] == 97);
            assert(s.take(offer_prefix().len() as int) != offer_prefix()) by {
                assert(offer_prefix()[9] == 111);
                assert(s.take(offer_prefix().len() as int)[9] == 97);
            }
            assert(s.take(answer_prefix().len() as int) =~= answer_prefix());
            assert(s.skip(answer_prefix().len() as int) =~= escape(sdp) + seq![34u8, 125u8]);
            lemma_parse_escaped(sdp);
        },
        MessageView::IceCandidate { candidate } => {
            assert(s[9] == 105);
            assert(s.take(offer_prefix().len() as int) != offer_prefix()) by {
                assert(offer_prefix()[9] == 111);
                assert(s.take(offer_prefix().len() as int)[9] == 105);
            }
            assert(s.take(answer_prefix().len() as int) != answer_prefix()) by {
                assert(answer_prefix()[9] == 97);
                assert(s.take(answer_prefix().len() as int)[9] == 105);
            }
            assert(s.take(ice_prefix().len() as int) =~= ice_prefix());
            assert(s.len() >= ice_prefix().len() + 2);
            assert(s[s.len() - 1] == 125);
            assert(s.subrange(ice_prefix().len() as int, s.len() - 1) =~= candidate);
        },
    }
}

/// Whatever an accepted text field unescapes to is carryable: every byte
/// of it can be written back out.
proof fn lemma_parse_text_wf(t: Seq<u8>)
    ensures
        parse_text_body(t) matches Some(x) ==> wf_text(x),
    decreases t.len(),
{
    if t.len() == 0 {
    } else if t[0] == 34 {
    } else if t[0] == 92 {
        if t.len() >= 2 {
            match unescape_code(t[1]) {
                Option::Some(b) => {
                    lemma_parse_text_wf(t.skip(2));
                    match parse_text_body(t.skip(2)) {
                        Option::Some(rest) => {
                            assert(text_byte_ok(b));
                            assert forall|i: int| 0 <= i < (seq![b] + rest).len() implies
                                text_byte_ok((seq![b] + rest)[i]) by {
                                if i > 0 {
                                    assert((seq![b] + rest)[i] == rest[i - 1]);
                                }
                            }
                        },
                        Option::None => {},
                    }
                },
                Option::None => {},
            }
        }
    } else if plain_byte(t[0]) {
        let b = t[0];
        lemma_parse_text_wf(t.drop_first());
        match parse_text_body(t.drop_first()) {
            Option::Some(rest) => {
                assert(text_byte_ok(b));
                assert forall|i: int| 0 <= i < (seq![b] + rest).len() implies text_byte_ok(
                    (seq![b] + rest)[i],
                ) by {
                    if i > 0 {
                        assert((seq![b] + rest)[i] == rest[i - 1]);
                    }
                }
            },
            Option::None => {},
        }
    }
}

/// Every accepted body decodes to a carryable message.
pub proof fn lemma_accepted_is_carryable(s: Seq<u8>)
    ensures
        parse_spec(s) matches Some(m) ==> wf_message(m),
{
    if s.len() >= offer_prefix().len() && s.take(offer_prefix().len() as int) == offer_prefix() {
        lemma_parse_text_wf(s.skip(offer_prefix().len() as int));
    } else if s.len() >= answer_prefix().len() && s.take(answer_prefix().len() as int)
        == answer_prefix() {
        lemma_parse_text_wf(s.skip(answer_prefix().len() as int));
    }
}

/// Re-encoding stability: a message decoded from any accepted body writes
/// back out to bytes that decode to the same message again — relaying a
/// drained message loses nothing.
pub proof fn lemma_reencode_stable(s: Seq<u8>)
    ensures
        parse_spec(s) matches Some(m) ==> parse_spec(encode_spec(m)) == Option::Some(m),
{
    lemma_accepted_is_carryable(s);
    match parse_spec(s) {
        Option::Some(m) => lemma_round_trip(m),
        Option::None => {},
    }
}

/// Listing one more message appends a comma (when anything precedes it) and
/// its wire form.
proof fn lemma_items_push(ms: Seq<MessageView>, m: MessageView)
    ensures
        ms.len() == 0 ==> encode_list_items(ms.push(m)) == encode_spec(m),
        ms.len() > 0 ==> encode_list_items(ms.push(m)) == encode_list_items(ms) + seq![44u8]
            + encode_spec(m),
    decreases ms.len(),
{
    if ms.len() == 0 {
        assert(ms.push(m)[0] == m);
        assert(encode_list_items(ms.push(m)) =~= encode_spec(m));
    } else {
        lemma_items_push(ms.drop_first(), m);
        assert(ms.push(m).drop_first() =~= ms.drop_first().push(m));
        if ms.len() == 1 {
            assert(encode_list_items(ms.push(m)) =~= encode_list_items(ms) + seq![44u8]
                + encode_spec(m));
        } else {
            assert(encode_list_items(ms.push(m)) =~= encode_list_items(ms) + seq![44u8]
                + encode_spec(m));
        }
    }
}

} // verus!
