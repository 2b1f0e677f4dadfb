//! The wire format: fixed frames of 32 bytes, ASCII commands out, binary
//! sample frames and text replies in.

use vstd::prelude::*;
use vstd::utf8::{
    decode_utf8, encode_utf8, encode_utf8_decode_utf8, encode_utf8_valid_utf8, is_ascii_chars,
    is_ascii_chars_encode_utf8, valid_utf8,
};
use crate::commands::CommandOp;
use crate::error::Error;

verus! {

/// Every frame on the wire has this many bytes.
pub const FRAME_LEN: usize = 32;

/// The colon that opens every frame.
pub const COLON: u8 = 58;

/// The carriage return that closes the text of a frame.
pub const RETURN: u8 = 13;

/// The minus sign of a negative parameter.
pub const MINUS: u8 = 45;

/// The digit 0 in ASCII. The other digits follow it.
pub const DIGIT_ZERO: u8 = 48;

/// The digit 9 in ASCII.
pub const DIGIT_NINE: u8 = 57;

/// The letters of an acknowledgement, and the space after them, in ASCII.
pub const LETTER_A: u8 = 65;

pub const LETTER_C: u8 = 67;

pub const LETTER_K: u8 = 75;

pub const SPACE: u8 = 32;

/// Largest status byte of a sample frame.
pub const STATUS_MAX: u8 = 7;

/// Where the carriage return of a sample frame stands.
pub const RETURN_AT: usize = 10;

/// Smallest parameter that fits the nine characters of its field, sign included.
pub const PARAM_MIN: i32 = -99_999_999;

/// Largest parameter that fits the nine characters of its field.
pub const PARAM_MAX: i32 = 999_999_999;

/// Largest operation code a frame with a parameter can carry.
pub const PARAM_OP_MAX: u16 = 99;

/// The ASCII character of one decimal digit.
pub open spec fn digit(d: nat) -> u8 {
    (DIGIT_ZERO + d % 10) as u8
}

/// The last `width` decimal digits of `n`, most significant first.
pub open spec fn decimal_digits(n: nat, width: nat) -> Seq<u8>
    decreases width,
{
    if width == 0 {
        Seq::empty()
    } else {
        decimal_digits(n / 10, (width - 1) as nat).push(digit(n))
    }
}

/// How many characters an operation code takes: its decimal digits, at least two.
pub open spec fn op_width(op: u16) -> nat {
    if op < 100 {
        2
    } else if op < 1000 {
        3
    } else if op < 10000 {
        4
    } else {
        5
    }
}

/// An operation code as it is written into a frame.
pub open spec fn op_text(op: u16) -> Seq<u8> {
    decimal_digits(op as nat, op_width(op))
}

/// Whether a parameter fits its field.
pub open spec fn param_in_range(param: int) -> bool {
    PARAM_MIN <= param <= PARAM_MAX
}

/// A parameter as it is written into a frame: nine characters, zero-padded,
/// the first of them a minus sign where the parameter is negative.
pub open spec fn param_text(param: int) -> Seq<u8> {
    if param < 0 {
        seq![MINUS] + decimal_digits((-param) as nat, 8)
    } else {
        decimal_digits(param as nat, 9)
    }
}

/// `text` followed by null bytes up to the length of a frame.
pub open spec fn padded(text: Seq<u8>) -> Seq<u8> {
    Seq::new(32, |i: int| if i < text.len() { text[i] } else { 0u8 })
}

/// The frame of a command without a parameter: colon, operation code,
/// carriage return.
pub open spec fn cmd_frame(op: u16) -> Seq<u8> {
    padded(seq![COLON] + op_text(op) + seq![RETURN])
}

/// The frame of a command with a parameter: colon, operation code, parameter,
/// carriage return.
pub open spec fn cmd_param_frame(op: u16, param: int) -> Seq<u8> {
    padded(seq![COLON] + op_text(op) + param_text(param) + seq![RETURN])
}

/// What encoding a command with a parameter comes to: its frame, or
/// `OutOfRange` where the operation code takes more than two digits or the
/// parameter more than nine characters.
pub open spec fn cmd_param_result(op: CommandOp, param: int) -> Result<Seq<u8>, Error> {
    if param_in_range(param) && op.spec_code() <= PARAM_OP_MAX {
        Ok(cmd_param_frame(op.spec_code(), param))
    } else {
        Err(Error::OutOfRange)
    }
}

/// The frame that asks the device for its next sample: colon, carriage return.
pub open spec fn continuation_frame() -> Seq<u8> {
    padded(seq![COLON, RETURN])
}

/// The bytes that ask the device for its version. This request is not padded.
pub open spec fn version_request() -> Seq<u8> {
    seq![COLON, DIGIT_NINE, DIGIT_NINE, RETURN]
}

proof fn lemma_digits_len(n: nat, width: nat)
    ensures
        decimal_digits(n, width).len() == width,
    decreases width,
{
    if width > 0 {
        lemma_digits_len(n / 10, (width - 1) as nat);
    }
}

proof fn lemma_digits_index(n: nat, width: nat, j: int)
    requires
        0 <= j < width,
    ensures
        decimal_digits(n, width).len() == width,
        j == width - 1 ==> decimal_digits(n, width)[j] == digit(n),
        j < width - 1 ==> decimal_digits(n, width)[j] == decimal_digits(
            n / 10,
            (width - 1) as nat,
        )[j],
{
    lemma_digits_len(n, width);
    lemma_digits_len(n / 10, (width - 1) as nat);
}

/// The bytes of a command frame that hold its operation code begin right
/// after the colon: two digits for a code below 100, more for a larger one.
pub proof fn lemma_cmd_frame_code(op: u16)
    ensures
        cmd_frame(op).len() == 32,
        cmd_frame(op)[0] == COLON,
        op < 100 ==> cmd_frame(op)[1] == digit((op / 10) as nat) && cmd_frame(op)[2] == digit(
            op as nat,
        ) && cmd_frame(op)[3] == RETURN,
        100 <= op < 1000 ==> cmd_frame(op)[1] == digit((op / 100) as nat) && cmd_frame(op)[2]
            == digit((op / 10) as nat) && cmd_frame(op)[3] == digit(op as nat),
{
    reveal_with_fuel(decimal_digits, 4);
    lemma_digits_len(op as nat, op_width(op));
    let text = seq![COLON] + op_text(op) + seq![RETURN];
    assert(text.len() == op_width(op) + 2);
    if op < 100 {
        assert(text[1] == op_text(op)[0]);
        assert(text[2] == op_text(op)[1]);
        assert(text[3] == RETURN);
    } else if op < 1000 {
        assert(text[1] == op_text(op)[0]);
        assert(text[2] == op_text(op)[1]);
        assert(text[3] == op_text(op)[2]);
    }
}

/// A frame with a parameter begins with the colon and the two digits of its
/// operation code.
pub proof fn lemma_cmd_param_frame_code(op: u16, param: int)
    requires
        op < 100,
    ensures
        cmd_param_frame(op, param).len() == 32,
        cmd_param_frame(op, param)[0] == COLON,
        cmd_param_frame(op, param)[1] == digit((op / 10) as nat),
        cmd_param_frame(op, param)[2] == digit(op as nat),
{
    reveal_with_fuel(decimal_digits, 3);
    lemma_digits_len(op as nat, 2);
    let text = seq![COLON] + op_text(op) + param_text(param) + seq![RETURN];
    assert(text[1] == op_text(op)[0]);
    assert(text[2] == op_text(op)[1]);
}

/// The frame that asks for the next sample holds nothing but its colon and
/// its carriage return.
pub proof fn lemma_continuation_frame_bytes()
    ensures
        continuation_frame().len() == 32,
        continuation_frame()[0] == COLON,
        continuation_frame()[1] == RETURN,
        forall|i: int| 2 <= i < 32 ==> continuation_frame()[i] == 0,
{
}

/// A frame of null bytes.
fn blank_frame() -> (frame: [u8; 32])
    ensures
        forall|i: int| 0 <= i < 32 ==> frame@[i] == 0,
{
    [
        0u8, 0, 0, 0, 0, 0, 0, 0, 0, 0, 0, 0, 0, 0, 0, 0, 0, 0, 0, 0, 0, 0, 0, 0, 0, 0, 0, 0, 0, 0,
        0, 0,
    ]
}

/// `buf` with `text` written over it from offset `at` on.
pub open spec fn overwritten(buf: Seq<u8>, at: int, text: Seq<u8>) -> Seq<u8> {
    Seq::new(buf.len(), |j: int| if at <= j < at + text.len() { text[j - at] } else { buf[j] })
}

/// Writes the last `width` decimal digits of `n` into `buf`, starting at `at`.
fn put_digits(frame: [u8; 32], at: usize, n: u32, width: usize) -> (buf: [u8; 32])
    requires
        at + width <= 32,
    ensures
        buf@ == overwritten(frame@, at as int, decimal_digits(n as nat, width as nat)),
{
    let mut buf: [u8; 32] = frame;
    let mut rest: u32 = n;
    let mut i: usize = width;
    proof {
        lemma_digits_len(n as nat, width as nat);
    }
    while i > 0
        invariant
            i <= width,
            at + width <= 32,
            decimal_digits(n as nat, width as nat).len() == width,
            forall|j: int| 0 <= j < at ==> buf@[j] == frame@[j],
            forall|j: int| at + width <= j < 32 ==> buf@[j] == frame@[j],
            forall|j: int|
                at + i <= j < at + width ==> buf@[j] == #[trigger] decimal_digits(
                    n as nat,
                    width as nat,
                )[j - at],
            forall|j: int|
                0 <= j < i ==> #[trigger] decimal_digits(n as nat, width as nat)[j]
                    == decimal_digits(rest as nat, i as nat)[j],
        decreases i,
    {
        let d: u8 = (rest % 10) as u8;
        proof {
            assert forall|j: int| 0 <= j < i - 1 implies #[trigger] decimal_digits(
                n as nat,
                width as nat,
            )[j] == decimal_digits((rest / 10) as nat, (i - 1) as nat)[j] by {
                lemma_digits_index(rest as nat, i as nat, j);
            }
            lemma_digits_index(rest as nat, i as nat, i - 1);
            assert(decimal_digits(n as nat, width as nat)[i - 1] == DIGIT_ZERO + d);
        }
        let ghost before = buf@;
        buf[at + i - 1] = DIGIT_ZERO + d;
        proof {
            assert(buf@ == before.update(at + i - 1, (DIGIT_ZERO + d) as u8));
            assert forall|j: int| at + i - 1 <= j < at + width implies buf@[j]
                == #[trigger] decimal_digits(n as nat, width as nat)[j - at] by {
                if j > at + i - 1 {
                    assert(buf@[j] == before[j]);
                }
            }
        }
        rest = rest / 10;
        i = i - 1;
    }
    proof {
        let text = decimal_digits(n as nat, width as nat);
        assert forall|j: int| 0 <= j < 32 implies buf@[j] == overwritten(
            frame@,
            at as int,
            text,
        )[j] by {
            if at <= j < at + width {
                assert(buf@[j] == text[j - at]);
            }
        }
        assert(buf@ =~= overwritten(frame@, at as int, text));
    }
    buf
}

/// The frame of a command without a parameter.
pub fn encode_cmd(op: CommandOp) -> (frame: [u8; 32])
    ensures
        frame@ == cmd_frame(op.code()),
{
    let code: u16 = op.code();
    let width: usize = if code < 100 {
        2
    } else if code < 1000 {
        3
    } else if code < 10000 {
        4
    } else {
        5
    };
    let mut frame: [u8; 32] = blank_frame();
    let ghost blank = frame@;
    assert(forall|i: int| 0 <= i < 32 ==> blank[i] == 0);
    frame[0] = COLON;
    let ghost opened = frame@;
    frame = put_digits(frame, 1, code as u32, width);
    let ghost numbered = frame@;
    frame[1 + width] = RETURN;
    proof {
        lemma_digits_len(code as nat, width as nat);
        let text = seq![COLON] + op_text(code) + seq![RETURN];
        assert(opened == blank.update(0, COLON));
        assert(numbered == overwritten(opened, 1, op_text(code)));
        assert(frame@ == numbered.update(1 + width, RETURN));
        assert forall|i: int| 0 <= i < 32 implies frame@[i] == padded(text)[i] by {
            if 1 <= i <= width {
                assert(text[i] == op_text(code)[i - 1]);
            }
        }
        assert(frame@ =~= cmd_frame(code));
    }
    frame
}

/// The frame of a command with a parameter, or `OutOfRange` where the
/// operation code takes more than two digits or the parameter more than nine
/// characters.
pub fn encode_cmd_param(op: CommandOp, param: i32) -> (r: Result<[u8; 32], Error>)
    ensures
        r is Ok <==> param_in_range(param as int) && op.code() <= 99,
        r matches Ok(frame) ==> frame@ == cmd_param_frame(op.code(), param as int),
        r matches Err(e) ==> e == Error::OutOfRange,
        match r {
            Ok(frame) => cmd_param_result(op, param as int) == Ok::<Seq<u8>, Error>(frame@),
            Err(e) => cmd_param_result(op, param as int) == Err::<Seq<u8>, Error>(e),
        },
{
    let code: u16 = op.code();
    if param < PARAM_MIN || param > PARAM_MAX || code > PARAM_OP_MAX {
        return Err(Error::OutOfRange);
    }
    let mut frame: [u8; 32] = blank_frame();
    let ghost blank = frame@;
    assert(forall|i: int| 0 <= i < 32 ==> blank[i] == 0);
    frame[0] = COLON;
    let ghost opened = frame@;
    frame = put_digits(frame, 1, code as u32, 2);
    let ghost numbered = frame@;
    if param < 0 {
        frame[3] = MINUS;
        let ghost signed = frame@;
        frame = put_digits(frame, 4, (-param) as u32, 8);
        proof {
            lemma_digits_len((-param) as nat, 8);
            assert(signed == numbered.update(3, MINUS));
            assert(frame@ =~= overwritten(numbered, 3, param_text(param as int)));
        }
    } else {
        frame = put_digits(frame, 3, param as u32, 9);
    }
    let ghost filled = frame@;
    frame[12] = RETURN;
    proof {
        lemma_digits_len(code as nat, 2);
        if param < 0 {
            lemma_digits_len((-param) as nat, 8);
        } else {
            lemma_digits_len(param as nat, 9);
        }
        let text = seq![COLON] + op_text(code) + param_text(param as int) + seq![RETURN];
        assert(param_text(param as int).len() == 9);
        assert(opened == blank.update(0, COLON));
        assert(numbered == overwritten(opened, 1, op_text(code)));
        assert(filled == overwritten(numbered, 3, param_text(param as int)));
        assert(frame@ == filled.update(12, RETURN));
        assert forall|i: int| 0 <= i < 32 implies frame@[i] == padded(text)[i] by {
            if 1 <= i <= 2 {
                assert(text[i] == op_text(code)[i - 1]);
            } else if 3 <= i <= 11 {
                assert(text[i] == param_text(param as int)[i - 3]);
            }
        }
        assert(frame@ =~= cmd_param_frame(code, param as int));
    }
    Ok(frame)
}

/// The frame that asks the device for its next sample.
pub fn encode_continuation() -> (frame: [u8; 32])
    ensures
        frame@ == continuation_frame(),
{
    let mut frame: [u8; 32] = blank_frame();
    let ghost blank = frame@;
    assert(forall|i: int| 0 <= i < 32 ==> blank[i] == 0);
    frame[0] = COLON;
    frame[1] = RETURN;
    assert(frame@ == blank.update(0, COLON).update(1, RETURN));
    assert(frame@ =~= continuation_frame());
    frame
}

/// The bytes of a frame, for writing.
pub fn frame_bytes(frame: &[u8; 32]) -> (bytes: Vec<u8>)
    ensures
        bytes@ == frame@,
{
    let mut bytes: Vec<u8> = Vec::new();
    let mut i: usize = 0;
    while i < FRAME_LEN
        invariant
            i <= FRAME_LEN,
            bytes@.len() == i,
            forall|j: int| 0 <= j < i ==> bytes@[j] == frame@[j],
        decreases FRAME_LEN - i,
    {
        bytes.push(frame[i]);
        i = i + 1;
    }
    assert(bytes@ =~= frame@);
    bytes
}

/// The bytes that ask the device for its version.
pub fn encode_version_request() -> (bytes: Vec<u8>)
    ensures
        bytes@ == version_request(),
{
    let mut bytes: Vec<u8> = Vec::new();
    bytes.push(COLON);
    bytes.push(DIGIT_NINE);
    bytes.push(DIGIT_NINE);
    bytes.push(RETURN);
    assert(bytes@ =~= version_request());
    bytes
}

/// Most sample values one frame has room for.
pub const SAMPLE_SLOTS: usize = 14;

/// The 16-bit value of two bytes, low byte first.
pub open spec fn le16(lo: u8, hi: u8) -> u16 {
    (lo as int + 256 * (hi as int)) as u16
}

/// Whether a frame passes for a sample frame: a colon first, a status byte of
/// at most 7, and a carriage return at offset 10.
pub open spec fn sample_frame_ok(frame: Seq<u8>) -> bool {
    frame.len() == FRAME_LEN && frame[0] == COLON && frame[1] <= STATUS_MAX && frame[RETURN_AT as int]
        == RETURN
}

/// The number of values a sample frame announces.
pub open spec fn sample_count(frame: Seq<u8>) -> nat {
    le16(frame[2], frame[3]) as nat
}

/// The values of a sample frame: as many as it announces, as far as the frame
/// has room for them, each two bytes from offset 4 on.
pub open spec fn sample_values(frame: Seq<u8>) -> Seq<u16> {
    let count = if sample_count(frame) < 14 {
        sample_count(frame)
    } else {
        14
    };
    Seq::new(count, |i: int| le16(frame[4 + 2 * i], frame[5 + 2 * i]))
}

fn read_le16(lo: u8, hi: u8) -> (v: u16)
    ensures
        v == le16(lo, hi),
{
    lo as u16 + 256 * (hi as u16)
}

/// Decodes one sample frame. An empty result is the device's way of saying
/// that the sweep is complete.
pub fn decode_sample(sample: [u8; 32]) -> (r: Result<Vec<u16>, Error>)
    ensures
        r is Ok <==> sample_frame_ok(sample@),
        r matches Ok(values) ==> values@ == sample_values(sample@),
        r matches Err(e) ==> e == Error::InvalidResponse,
{
    if sample[0] != COLON || sample[1] > STATUS_MAX || sample[RETURN_AT] != RETURN {
        return Err(Error::InvalidResponse);
    }
    let announced: usize = read_le16(sample[2], sample[3]) as usize;
    let count: usize = if announced < SAMPLE_SLOTS {
        announced
    } else {
        SAMPLE_SLOTS
    };
    let mut values: Vec<u16> = Vec::new();
    let mut i: usize = 0;
    while i < count
        invariant
            i <= count <= 14,
            values@.len() == i,
            forall|j: int|
                0 <= j < i ==> values@[j] == le16(sample@[4 + 2 * j], sample@[5 + 2 * j]),
        decreases count - i,
    {
        values.push(read_le16(sample[4 + 2 * i], sample[5 + 2 * i]));
        i = i + 1;
    }
    assert(values@ =~= sample_values(sample@));
    Ok(values)
}

/// Whether a reply acknowledges a command: it begins with `:ACK` and a space.
pub open spec fn is_ack_frame(frame: Seq<u8>) -> bool {
    frame.len() >= 5 && frame[0] == COLON && frame[1] == LETTER_A && frame[2] == LETTER_C
        && frame[3] == LETTER_K && frame[4] == SPACE
}

/// Whether a reply acknowledges a command.
pub fn is_ack(frame: &[u8; 32]) -> (ack: bool)
    ensures
        ack == is_ack_frame(frame@),
{
    frame[0] == COLON && frame[1] == LETTER_A && frame[2] == LETTER_C && frame[3] == LETTER_K
        && frame[4] == SPACE
}

/// The length of a reply without the null bytes at its end.
pub open spec fn trimmed_len(frame: Seq<u8>) -> nat
    decreases frame.len(),
{
    if frame.len() > 0 && frame.last() == 0 {
        trimmed_len(frame.drop_last())
    } else {
        frame.len()
    }
}

/// What a version reply holds between its markers: the bytes after the leading
/// `:99` and before the carriage return that ends the reply once its trailing
/// null bytes are taken off. `None` where either marker is missing.
pub open spec fn version_body(frame: Seq<u8>) -> Option<Seq<u8>> {
    let n = trimmed_len(frame) as int;
    if n >= 4 && frame[0] == COLON && frame[1] == DIGIT_NINE && frame[2] == DIGIT_NINE && frame[n
        - 1] == RETURN {
        Some(frame.subrange(3, n - 1))
    } else {
        None
    }
}

/// Whether every byte is an ASCII character.
pub open spec fn is_ascii_bytes(bytes: Seq<u8>) -> bool {
    forall|i: int| 0 <= i < bytes.len() ==> #[trigger] bytes[i] < 128
}

/// ASCII bytes as the characters they stand for.
pub open spec fn ascii_text(bytes: Seq<u8>) -> Seq<char> {
    Seq::new(bytes.len(), |i: int| bytes[i] as char)
}

/// ASCII bytes are text, one character to the byte.
pub proof fn lemma_ascii_is_text(bytes: Seq<u8>)
    requires
        is_ascii_bytes(bytes),
    ensures
        valid_utf8(bytes),
        decode_utf8(bytes) == ascii_text(bytes),
{
    let chars = ascii_text(bytes);
    assert(is_ascii_chars(chars)) by {
        assert forall|i: int| 0 <= i < chars.len() implies '\0' <= #[trigger] chars[i]
            <= '\u{7f}' by {
            assert(bytes[i] < 128);
        }
    }
    is_ascii_chars_encode_utf8(chars);
    assert(encode_utf8(chars) =~= bytes) by {
        assert forall|i: int| 0 <= i < bytes.len() implies encode_utf8(chars)[i] == bytes[i] by {
            assert(chars[i] as u8 == encode_utf8(chars)[i]);
            assert(bytes[i] < 128);
        }
    }
    encode_utf8_valid_utf8(chars);
    encode_utf8_decode_utf8(chars);
}

/// A version reply in ASCII is read exactly where it begins with `:99` and,
/// its trailing null bytes apart, ends with a carriage return, and the text
/// is then the bytes between the two, character for character.
pub proof fn lemma_ascii_version(frame: Seq<u8>)
    requires
        frame.len() == 32,
        is_ascii_bytes(frame),
    ensures
        version_result(frame) is Ok <==> version_body(frame) is Some,
        version_body(frame) matches Some(body) ==> version_result(frame) == Ok::<
            Seq<char>,
            Error,
        >(ascii_text(body)),
{
    if version_body(frame) is Some {
        let body = version_body(frame)->Some_0;
        lemma_trimmed_len_bound(frame);
        assert(is_ascii_bytes(body)) by {
            assert forall|i: int| 0 <= i < body.len() implies #[trigger] body[i] < 128 by {
                assert(body[i] == frame[i + 3]);
            }
        }
        lemma_ascii_is_text(body);
    }
}

proof fn lemma_trimmed_len_bound(frame: Seq<u8>)
    ensures
        trimmed_len(frame) <= frame.len(),
    decreases frame.len(),
{
    if frame.len() > 0 && frame.last() == 0 {
        lemma_trimmed_len_bound(frame.drop_last());
    }
}

/// What reading a version reply comes to: the text between its markers,
/// `InvalidResponse` where a marker is missing, and `Encoding` where what
/// stands between them is not UTF-8.
pub open spec fn version_result(frame: Seq<u8>) -> Result<Seq<char>, Error> {
    match version_body(frame) {
        None => Err(Error::InvalidResponse),
        Some(body) => if valid_utf8(body) {
            Ok(decode_utf8(body))
        } else {
            Err(Error::Encoding)
        },
    }
}

proof fn lemma_trimmed_len(frame: Seq<u8>, n: int)
    requires
        0 <= n <= frame.len(),
        forall|j: int| n <= j < frame.len() ==> frame[j] == 0,
        n > 0 ==> frame[n - 1] != 0,
    ensures
        trimmed_len(frame) == n,
    decreases frame.len(),
{
    if frame.len() > n {
        let shorter = frame.drop_last();
        assert forall|j: int| n <= j < shorter.len() implies shorter[j] == 0 by {
            assert(shorter[j] == frame[j]);
        }
        lemma_trimmed_len(shorter, n);
    }
}

/// `String::from_utf8`: the text that `bytes` encode, where they are valid
/// UTF-8, and nothing where they are not.
#[verifier::external_body]
fn text_from_utf8(bytes: Vec<u8>) -> (r: Option<String>)
    ensures
        r is Some <==> valid_utf8(bytes@),
        r matches Some(text) ==> text@ == decode_utf8(bytes@),
{
    String::from_utf8(bytes).ok()
}

/// Reads the version text out of the device's reply to a version request.
///
/// The reply must begin with `:99` and, its trailing null bytes apart, end
/// with a carriage return; the text is what stands between the two.
pub fn parse_version(frame: &[u8; 32]) -> (r: Result<String, Error>)
    ensures
        match r {
            Ok(text) => version_result(frame@) == Ok::<Seq<char>, Error>(text@),
            Err(e) => version_result(frame@) == Err::<Seq<char>, Error>(e),
        },
{
    let mut n: usize = FRAME_LEN;
    while n > 0 && frame[n - 1] == 0
        invariant
            n <= 32,
            forall|j: int| n <= j < 32 ==> frame@[j] == 0,
        decreases n,
    {
        n = n - 1;
    }
    proof {
        lemma_trimmed_len(frame@, n as int);
    }
    if n < 4 || frame[0] != COLON || frame[1] != DIGIT_NINE || frame[2] != DIGIT_NINE || frame[n
        - 1] != RETURN {
        return Err(Error::InvalidResponse);
    }
    let mut body: Vec<u8> = Vec::new();
    let mut i: usize = 3;
    while i < n - 1
        invariant
            3 <= i <= n - 1,
            n <= 32,
            body@ == frame@.subrange(3, i as int),
        decreases n - i,
    {
        body.push(frame[i]);
        assert(frame@.subrange(3, i + 1) =~= frame@.subrange(3, i as int).push(frame@[i as int]));
        i = i + 1;
    }
    match text_from_utf8(body) {
        Some(text) => Ok(text),
        None => Err(Error::Encoding),
    }
}

} // verus!
