use vstd::prelude::*;

verus! {

/// The order of the bytes of the length prefix: the order of the machine the
/// two ends share.
#[derive(Debug, Clone, Copy, PartialEq, Eq, Structural)]
pub enum ByteOrder {
    Little,
    Big,
}

/// The four bytes of `n`, least significant first.
pub open spec fn le_bytes(n: u32) -> Seq<u8> {
    seq![
        (n % 0x100) as u8,
        ((n / 0x100) % 0x100) as u8,
        ((n / 0x1_0000) % 0x100) as u8,
        (n / 0x100_0000) as u8,
    ]
}

/// The four bytes of `n` in `order`.
pub open spec fn u32_bytes(n: u32, order: ByteOrder) -> Seq<u8> {
    match order {
        ByteOrder::Little => le_bytes(n),
        ByteOrder::Big => seq![le_bytes(n)[3], le_bytes(n)[2], le_bytes(n)[1], le_bytes(n)[0]],
    }
}

/// The number whose four bytes, least significant first, are `b`.
pub open spec fn le_value(b: Seq<u8>) -> int {
    b[0] + b[1] * 0x100 + b[2] * 0x1_0000 + b[3] * 0x100_0000
}

/// The number whose four bytes in `order` are `b`.
pub open spec fn u32_value(b: Seq<u8>, order: ByteOrder) -> int {
    match order {
        ByteOrder::Little => le_value(b),
        ByteOrder::Big => le_value(seq![b[3], b[2], b[1], b[0]]),
    }
}

/// A frame: the body's length in four bytes, then the body.
pub open spec fn spec_frame(body: Seq<u8>, order: ByteOrder) -> Seq<u8> {
    u32_bytes(body.len() as u32, order) + body
}

proof fn lemma_le_round_trip(n: u32)
    ensures
        le_value(le_bytes(n)) == n,
{
    let b0 = n % 0x100;
    let b1 = (n / 0x100) % 0x100;
    let b2 = (n / 0x1_0000) % 0x100;
    let b3 = n / 0x100_0000;
    assert(n == b0 + b1 * 0x100 + b2 * 0x1_0000 + b3 * 0x100_0000) by (nonlinear_arith)
        requires
            b0 == n % 0x100,
            b1 == (n / 0x100) % 0x100,
            b2 == (n / 0x1_0000) % 0x100,
            b3 == n / 0x100_0000,
            0 <= n < 0x1_0000_0000,
    ;
    assert(b3 < 0x100) by (nonlinear_arith)
        requires
            b3 == n / 0x100_0000,
            0 <= n < 0x1_0000_0000,
    ;
}

/// Encode `n` as four bytes in `order`.
pub fn encode_u32(n: u32, order: ByteOrder) -> (r: [u8; 4])
    ensures
        r@ == u32_bytes(n, order),
{
    let b0 = (n % 0x100) as u8;
    let b1 = ((n / 0x100) % 0x100) as u8;
    let b2 = ((n / 0x1_0000) % 0x100) as u8;
    let b3 = (n / 0x100_0000) as u8;
    let r = match order {
        ByteOrder::Little => [b0, b1, b2, b3],
        ByteOrder::Big => [b3, b2, b1, b0],
    };
    proof {
        match order {
            ByteOrder::Little => assert(r@ =~= le_bytes(n)),
            ByteOrder::Big => assert(r@ =~= u32_bytes(n, order)),
        }
    }
    r
}

/// Decode four bytes in `order` as a number.
pub fn decode_u32(b: [u8; 4], order: ByteOrder) -> (r: u32)
    ensures
        r == u32_value(b@, order),
{
    let (b0, b1, b2, b3) = match order {
        ByteOrder::Little => (b[0], b[1], b[2], b[3]),
        ByteOrder::Big => (b[3], b[2], b[1], b[0]),
    };
    b0 as u32 + b1 as u32 * 0x100 + b2 as u32 * 0x1_0000 + b3 as u32 * 0x100_0000
}

/// Frame `body` for the wire; `None` when it is too long for its length to fit
/// the prefix.
pub fn encode_frame(body: &Vec<u8>, order: ByteOrder) -> (r: Option<Vec<u8>>)
    ensures
        body@.len() <= u32::MAX ==> (r matches Some(f) && f@ == spec_frame(body@, order)),
        body@.len() > u32::MAX ==> r is None,
{
    if body.len() > u32::MAX as usize {
        return None;
    }
    let prefix = encode_u32(body.len() as u32, order);
    let mut out: Vec<u8> = Vec::new();
    out.push(prefix[0]);
    out.push(prefix[1]);
    out.push(prefix[2]);
    out.push(prefix[3]);
    let mut k: usize = 0;
    while k < body.len()
        invariant
            0 <= k <= body@.len(),
            out@ == prefix@ + body@.subrange(0, k as int),
        decreases body@.len() - k,
    {
        out.push(body[k]);
        proof {
            assert(body@.subrange(0, k as int + 1) =~= body@.subrange(0, k as int).push(body@[k as int]));
            assert(prefix@ + body@.subrange(0, k as int + 1) =~= (prefix@ + body@.subrange(0, k as int)).push(body@[k as int]));
        }
        k += 1;
    }
    assert(body@.subrange(0, body@.len() as int) =~= body@);
    Some(out)
}

/// What a buffer of bytes read from the wire holds.
#[derive(Debug, Clone, PartialEq, Eq)]
pub enum FrameStatus {
    /// Not yet a whole frame: more bytes are needed.
    Incomplete,
    /// A whole frame: its body, and how many bytes of the buffer it took.
    Complete { body: Vec<u8>, consumed: usize },
}

/// The length a buffer's prefix announces, once it has four bytes.
pub open spec fn announced_len(buf: Seq<u8>, order: ByteOrder) -> int {
    u32_value(buf.subrange(0, 4), order)
}

/// Take the first frame off the front of `buf`, if all of it is there.
pub fn decode_frame(buf: &Vec<u8>, order: ByteOrder) -> (r: FrameStatus)
    ensures
        match r {
            FrameStatus::Incomplete => buf@.len() < 4 || buf@.len() < 4 + announced_len(buf@, order),
            FrameStatus::Complete { body, consumed } => {
                &&& buf@.len() >= 4
                &&& consumed == 4 + announced_len(buf@, order)
                &&& consumed <= buf@.len()
                &&& body@ == buf@.subrange(4, consumed as int)
            },
        },
{
    if buf.len() < 4 {
        return FrameStatus::Incomplete;
    }
    let prefix = [buf[0], buf[1], buf[2], buf[3]];
    assert(prefix@ =~= buf@.subrange(0, 4));
    let n = decode_u32(prefix, order) as usize;
    if buf.len() - 4 < n {
        return FrameStatus::Incomplete;
    }
    let mut body: Vec<u8> = Vec::new();
    let mut k: usize = 0;
    let len = buf.len();
    while k < n
        invariant
            0 <= k <= n,
            len == buf@.len(),
            4 + n <= len,
            body@ == buf@.subrange(4, 4 + k as int),
        decreases n - k,
    {
        body.push(buf[4 + k]);
        proof {
            assert(buf@.subrange(4, 4 + k as int + 1) =~= buf@.subrange(4, 4 + k as int).push(buf@[4 + k as int]));
        }
        k += 1;
    }
    FrameStatus::Complete { body, consumed: 4 + n }
}

/// A framed body reads back as itself, taking the whole frame, in either
/// byte order.
pub proof fn lemma_frame_round_trip(body: Seq<u8>, order: ByteOrder)
    requires
        body.len() <= u32::MAX,
    ensures
        ({
            let f = spec_frame(body, order);
            &&& f.len() >= 4
            &&& announced_len(f, order) == body.len()
            &&& f.subrange(4, 4 + body.len() as int) == body
        }),
{
    let n = body.len() as u32;
    let f = spec_frame(body, order);
    lemma_le_round_trip(n);
    assert(f.subrange(0, 4) =~= u32_bytes(n, order));
    match order {
        ByteOrder::Little => {},
        ByteOrder::Big => {
            let b = f.subrange(0, 4);
            assert(seq![b[3], b[2], b[1], b[0]] =~= le_bytes(n));
        },
    }
    assert(f.subrange(4, 4 + body.len() as int) =~= body);
}

} // verus!
