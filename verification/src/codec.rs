use vstd::prelude::*;
use crate::scalar::Scalar;

verus! {

/// A type that can be read from the front of an ordered sequence of scalars.
///
/// Decoding composes left-to-right positionally: a handler's parameter list
/// is decoded as the concatenation of its parameters' encodings. A decoder
/// consumes zero or more leading scalars and either produces a value or
/// fails; it never reads past what it consumes.
pub trait Decodable: Sized {
    /// How a prefix of `s` reads as a `Self`: the decoded value and the
    /// number of scalars consumed, or `None` when no prefix of `s` decodes.
    spec fn dec_spec(s: Seq<Scalar>) -> Option<(Self, int)>;

    /// A decoder consumes a well-formed prefix: at least zero and at most
    /// all of the scalars offered to it.
    proof fn dec_spec_consumes(s: Seq<Scalar>)
        ensures
            (Self::dec_spec(s) matches Some(p) ==> 0 <= p.1 <= s.len()),
    ;

    /// Reads one `Self` from `s` starting at position `pos`, returning the
    /// value and the position just past the scalars consumed.
    fn decode_prefix(s: &Vec<Scalar>, pos: usize) -> (r: Option<(Self, usize)>)
        requires
            pos <= s@.len(),
        ensures
            (match Self::dec_spec(s@.skip(pos as int)) {
                Some(p) => r matches Some(q) && q.0 == p.0 && q.1 == p.1 + pos,
                None => r is None,
            }),
    ;
}

/// A type that can be written out as an ordered sequence of scalars.
///
/// Encoding composes in return-value order; a multi-field value encodes as
/// the flattened concatenation of its fields' encodings.
pub trait Encodable {
    /// The scalars `self` encodes to.
    spec fn enc_spec(&self) -> Seq<Scalar>;

    /// Appends the encoding of `self` to `out`.
    fn encode(&self, out: &mut Vec<Scalar>)
        ensures
            final(out)@ == old(out)@ + self.enc_spec(),
    ;
}

/// A codec that loses nothing: re-encoding a decoded value reproduces
/// exactly the scalars that were consumed. Together with the dispatch
/// contract this gives the round trip: an identity-like handler answers an
/// invoke with precisely the calldata it was given.
pub trait Lossless: Decodable + Encodable {
    /// The round-trip law every lossless codec proves.
    proof fn roundtrip(s: Seq<Scalar>, v: Self, n: int)
        requires
            Self::dec_spec(s) == Some((v, n)),
        ensures
            v.enc_spec() == s.take(n),
    ;
}

impl Decodable for u64 {
    open spec fn dec_spec(s: Seq<Scalar>) -> Option<(u64, int)> {
        if s.len() >= 1 && s[0].is_small() {
            Some((s[0].w0, 1))
        } else {
            None
        }
    }

    proof fn dec_spec_consumes(s: Seq<Scalar>) {
    }

    fn decode_prefix(s: &Vec<Scalar>, pos: usize) -> (r: Option<(u64, usize)>) {
        if pos < s.len() {
            let sc = s[pos];
            assert(s@.skip(pos as int)[0] == s@[pos as int]);
            match sc.to_u64() {
                Some(v) => Some((v, pos + 1)),
                None => None,
            }
        } else {
            None
        }
    }
}

impl Encodable for u64 {
    open spec fn enc_spec(&self) -> Seq<Scalar> {
        seq![Scalar { w0: *self, w1: 0, w2: 0, w3: 0 }]
    }

    fn encode(&self, out: &mut Vec<Scalar>) {
        out.push(Scalar::from_u64(*self));
    }
}

impl Lossless for u64 {
    proof fn roundtrip(s: Seq<Scalar>, v: u64, n: int) {
        assert(v.enc_spec() =~= s.take(n));
    }
}

impl Decodable for i64 {
    open spec fn dec_spec(s: Seq<Scalar>) -> Option<(i64, int)> {
        if s.len() >= 1 && s[0].is_small() {
            Some((s[0].w0 as i64, 1))
        } else {
            None
        }
    }

    proof fn dec_spec_consumes(s: Seq<Scalar>) {
    }

    fn decode_prefix(s: &Vec<Scalar>, pos: usize) -> (r: Option<(i64, usize)>) {
        if pos < s.len() {
            let sc = s[pos];
            assert(s@.skip(pos as int)[0] == s@[pos as int]);
            match sc.to_i64() {
                Some(v) => Some((v, pos + 1)),
                None => None,
            }
        } else {
            None
        }
    }
}

impl Encodable for i64 {
    open spec fn enc_spec(&self) -> Seq<Scalar> {
        seq![Scalar { w0: *self as u64, w1: 0, w2: 0, w3: 0 }]
    }

    fn encode(&self, out: &mut Vec<Scalar>) {
        out.push(Scalar::from_i64(*self));
    }
}

impl Lossless for i64 {
    proof fn roundtrip(s: Seq<Scalar>, v: i64, n: int) {
        let w = s[0].w0;
        assert(w as i64 as u64 == w) by (bit_vector);
        assert(v.enc_spec() =~= s.take(n));
    }
}

impl Decodable for bool {
    open spec fn dec_spec(s: Seq<Scalar>) -> Option<(bool, int)> {
        if s.len() >= 1 && s[0].is_small() && s[0].w0 <= 1 {
            Some((s[0].w0 == 1, 1))
        } else {
            None
        }
    }

    proof fn dec_spec_consumes(s: Seq<Scalar>) {
    }

    fn decode_prefix(s: &Vec<Scalar>, pos: usize) -> (r: Option<(bool, usize)>) {
        if pos < s.len() {
            let sc = s[pos];
            assert(s@.skip(pos as int)[0] == s@[pos as int]);
            match sc.to_u64() {
                Some(v) => {
                    if v <= 1 {
                        Some((v == 1, pos + 1))
                    } else {
                        None
                    }
                }
                None => None,
            }
        } else {
            None
        }
    }
}

impl Encodable for bool {
    open spec fn enc_spec(&self) -> Seq<Scalar> {
        seq![Scalar { w0: if *self { 1 } else { 0 }, w1: 0, w2: 0, w3: 0 }]
    }

    fn encode(&self, out: &mut Vec<Scalar>) {
        out.push(Scalar::from_u64(if *self { 1 } else { 0 }));
    }
}

impl Lossless for bool {
    proof fn roundtrip(s: Seq<Scalar>, v: bool, n: int) {
        assert(v.enc_spec() =~= s.take(n));
    }
}

impl Decodable for () {
    open spec fn dec_spec(s: Seq<Scalar>) -> Option<((), int)> {
        Some(((), 0))
    }

    proof fn dec_spec_consumes(s: Seq<Scalar>) {
    }

    fn decode_prefix(s: &Vec<Scalar>, pos: usize) -> (r: Option<((), usize)>) {
        Some(((), pos))
    }
}

impl Encodable for () {
    open spec fn enc_spec(&self) -> Seq<Scalar> {
        Seq::empty()
    }

    fn encode(&self, out: &mut Vec<Scalar>) {
        proof {
            assert(out@ =~= old(out)@ + self.enc_spec());
        }
    }
}

impl Lossless for () {
    proof fn roundtrip(s: Seq<Scalar>, v: (), n: int) {
        assert(v.enc_spec() =~= s.take(n));
    }
}

impl<A: Decodable> Decodable for (A,) {
    open spec fn dec_spec(s: Seq<Scalar>) -> Option<((A,), int)> {
        match A::dec_spec(s) {
            Some(p) => Some(((p.0,), p.1)),
            None => None,
        }
    }

    proof fn dec_spec_consumes(s: Seq<Scalar>) {
        A::dec_spec_consumes(s);
    }

    fn decode_prefix(s: &Vec<Scalar>, pos: usize) -> (r: Option<((A,), usize)>) {
        match A::decode_prefix(s, pos) {
            Some((a, np)) => Some(((a,), np)),
            None => None,
        }
    }
}

impl<A: Encodable> Encodable for (A,) {
    open spec fn enc_spec(&self) -> Seq<Scalar> {
        self.0.enc_spec()
    }

    fn encode(&self, out: &mut Vec<Scalar>) {
        self.0.encode(out);
    }
}

impl<A: Lossless> Lossless for (A,) {
    proof fn roundtrip(s: Seq<Scalar>, v: (A,), n: int) {
        A::roundtrip(s, v.0, n);
    }
}

impl<A: Decodable, B: Decodable> Decodable for (A, B) {
    open spec fn dec_spec(s: Seq<Scalar>) -> Option<((A, B), int)> {
        match A::dec_spec(s) {
            Some(pa) => match B::dec_spec(s.skip(pa.1)) {
                Some(pb) => Some(((pa.0, pb.0), pa.1 + pb.1)),
                None => None,
            },
            None => None,
        }
    }

    proof fn dec_spec_consumes(s: Seq<Scalar>) {
        A::dec_spec_consumes(s);
        match A::dec_spec(s) {
            Some(pa) => B::dec_spec_consumes(s.skip(pa.1)),
            None => (),
        }
    }

    fn decode_prefix(s: &Vec<Scalar>, pos: usize) -> (r: Option<((A, B), usize)>) {
        match A::decode_prefix(s, pos) {
            Some((a, p1)) => {
                proof {
                    A::dec_spec_consumes(s@.skip(pos as int));
                    assert(s@.skip(p1 as int) =~= s@.skip(pos as int).skip(p1 - pos));
                }
                match B::decode_prefix(s, p1) {
                    Some((b, p2)) => Some(((a, b), p2)),
                    None => None,
                }
            }
            None => None,
        }
    }
}

impl<A: Encodable, B: Encodable> Encodable for (A, B) {
    open spec fn enc_spec(&self) -> Seq<Scalar> {
        self.0.enc_spec() + self.1.enc_spec()
    }

    fn encode(&self, out: &mut Vec<Scalar>) {
        self.0.encode(out);
        self.1.encode(out);
        proof {
            assert(out@ =~= old(out)@ + self.enc_spec());
        }
    }
}

impl<A: Lossless, B: Lossless> Lossless for (A, B) {
    proof fn roundtrip(s: Seq<Scalar>, v: (A, B), n: int) {
        let pa = A::dec_spec(s)->Some_0;
        let na = pa.1;
        A::dec_spec_consumes(s);
        B::dec_spec_consumes(s.skip(na));
        A::roundtrip(s, v.0, na);
        B::roundtrip(s.skip(na), v.1, n - na);
        assert(v.enc_spec() =~= s.take(n));
    }
}

impl<A: Decodable, B: Decodable, C: Decodable> Decodable for (A, B, C) {
    open spec fn dec_spec(s: Seq<Scalar>) -> Option<((A, B, C), int)> {
        match <(A, (B, C)) as Decodable>::dec_spec(s) {
            Some(p) => Some(((p.0.0, p.0.1.0, p.0.1.1), p.1)),
            None => None,
        }
    }

    proof fn dec_spec_consumes(s: Seq<Scalar>) {
        <(A, (B, C)) as Decodable>::dec_spec_consumes(s);
    }

    fn decode_prefix(s: &Vec<Scalar>, pos: usize) -> (r: Option<((A, B, C), usize)>) {
        match <(A, (B, C)) as Decodable>::decode_prefix(s, pos) {
            Some(((a, (b, c)), np)) => Some(((a, b, c), np)),
            None => None,
        }
    }
}

impl<A: Encodable, B: Encodable, C: Encodable> Encodable for (A, B, C) {
    open spec fn enc_spec(&self) -> Seq<Scalar> {
        self.0.enc_spec() + self.1.enc_spec() + self.2.enc_spec()
    }

    fn encode(&self, out: &mut Vec<Scalar>) {
        self.0.encode(out);
        self.1.encode(out);
        self.2.encode(out);
        proof {
            assert(out@ =~= old(out)@ + self.enc_spec());
        }
    }
}

impl<A: Lossless, B: Lossless, C: Lossless> Lossless for (A, B, C) {
    proof fn roundtrip(s: Seq<Scalar>, v: (A, B, C), n: int) {
        <(A, (B, C)) as Lossless>::roundtrip(s, (v.0, (v.1, v.2)), n);
        assert(v.enc_spec() =~= (v.0, (v.1, v.2)).enc_spec());
    }
}

impl<A: Decodable, B: Decodable, C: Decodable, D: Decodable> Decodable for (A, B, C, D) {
    open spec fn dec_spec(s: Seq<Scalar>) -> Option<((A, B, C, D), int)> {
        match <(A, (B, (C, D))) as Decodable>::dec_spec(s) {
            Some(p) => Some(((p.0.0, p.0.1.0, p.0.1.1.0, p.0.1.1.1), p.1)),
            None => None,
        }
    }

    proof fn dec_spec_consumes(s: Seq<Scalar>) {
        <(A, (B, (C, D))) as Decodable>::dec_spec_consumes(s);
    }

    fn decode_prefix(s: &Vec<Scalar>, pos: usize) -> (r: Option<((A, B, C, D), usize)>) {
        match <(A, (B, (C, D))) as Decodable>::decode_prefix(s, pos) {
            Some(((a, (b, (c, d))), np)) => Some(((a, b, c, d), np)),
            None => None,
        }
    }
}

impl<A: Encodable, B: Encodable, C: Encodable, D: Encodable> Encodable for (A, B, C, D) {
    open spec fn enc_spec(&self) -> Seq<Scalar> {
        self.0.enc_spec() + self.1.enc_spec() + self.2.enc_spec() + self.3.enc_spec()
    }

    fn encode(&self, out: &mut Vec<Scalar>) {
        self.0.encode(out);
        self.1.encode(out);
        self.2.encode(out);
        self.3.encode(out);
        proof {
            assert(out@ =~= old(out)@ + self.enc_spec());
        }
    }
}

impl<A: Lossless, B: Lossless, C: Lossless, D: Lossless> Lossless for (A, B, C, D) {
    proof fn roundtrip(s: Seq<Scalar>, v: (A, B, C, D), n: int) {
        <(A, (B, (C, D))) as Lossless>::roundtrip(s, (v.0, (v.1, (v.2, v.3))), n);
        assert(v.enc_spec() =~= (v.0, (v.1, (v.2, v.3))).enc_spec());
    }
}

impl<A: Decodable, B: Decodable, C: Decodable, D: Decodable, E: Decodable> Decodable for (A, B, C, D, E) {
    open spec fn dec_spec(s: Seq<Scalar>) -> Option<((A, B, C, D, E), int)> {
        match <(A, (B, (C, (D, E)))) as Decodable>::dec_spec(s) {
            Some(p) => Some(((p.0.0, p.0.1.0, p.0.1.1.0, p.0.1.1.1.0, p.0.1.1.1.1), p.1)),
            None => None,
        }
    }

    proof fn dec_spec_consumes(s: Seq<Scalar>) {
        <(A, (B, (C, (D, E)))) as Decodable>::dec_spec_consumes(s);
    }

    fn decode_prefix(s: &Vec<Scalar>, pos: usize) -> (r: Option<((A, B, C, D, E), usize)>) {
        match <(A, (B, (C, (D, E)))) as Decodable>::decode_prefix(s, pos) {
            Some(((a, (b, (c, (d, e)))), np)) => Some(((a, b, c, d, e), np)),
            None => None,
        }
    }
}

impl<A: Encodable, B: Encodable, C: Encodable, D: Encodable, E: Encodable> Encodable for (A, B, C, D, E) {
    open spec fn enc_spec(&self) -> Seq<Scalar> {
        self.0.enc_spec() + self.1.enc_spec() + self.2.enc_spec() + self.3.enc_spec() + self.4.enc_spec()
    }

    fn encode(&self, out: &mut Vec<Scalar>) {
        self.0.encode(out);
        self.1.encode(out);
        self.2.encode(out);
        self.3.encode(out);
        self.4.encode(out);
        proof {
            assert(out@ =~= old(out)@ + self.enc_spec());
        }
    }
}

impl<A: Lossless, B: Lossless, C: Lossless, D: Lossless, E: Lossless> Lossless for (A, B, C, D, E) {
    proof fn roundtrip(s: Seq<Scalar>, v: (A, B, C, D, E), n: int) {
        <(A, (B, (C, (D, E)))) as Lossless>::roundtrip(s, (v.0, (v.1, (v.2, (v.3, v.4)))), n);
        assert(v.enc_spec() =~= (v.0, (v.1, (v.2, (v.3, v.4)))).enc_spec());
    }
}

impl<A: Decodable, B: Decodable, C: Decodable, D: Decodable, E: Decodable, F: Decodable> Decodable for (A, B, C, D, E, F) {
    open spec fn dec_spec(s: Seq<Scalar>) -> Option<((A, B, C, D, E, F), int)> {
        match <(A, (B, (C, (D, (E, F))))) as Decodable>::dec_spec(s) {
            Some(p) => Some(((p.0.0, p.0.1.0, p.0.1.1.0, p.0.1.1.1.0, p.0.1.1.1.1.0, p.0.1.1.1.1.1), p.1)),
            None => None,
        }
    }

    proof fn dec_spec_consumes(s: Seq<Scalar>) {
        <(A, (B, (C, (D, (E, F))))) as Decodable>::dec_spec_consumes(s);
    }

    fn decode_prefix(s: &Vec<Scalar>, pos: usize) -> (r: Option<((A, B, C, D, E, F), usize)>) {
        match <(A, (B, (C, (D, (E, F))))) as Decodable>::decode_prefix(s, pos) {
            Some(((a, (b, (c, (d, (e, f))))), np)) => Some(((a, b, c, d, e, f), np)),
            None => None,
        }
    }
}

impl<A: Encodable, B: Encodable, C: Encodable, D: Encodable, E: Encodable, F: Encodable> Encodable for (A, B, C, D, E, F) {
    open spec fn enc_spec(&self) -> Seq<Scalar> {
        self.0.enc_spec() + self.1.enc_spec() + self.2.enc_spec() + self.3.enc_spec() + self.4.enc_spec() + self.5.enc_spec()
    }

    fn encode(&self, out: &mut Vec<Scalar>) {
        self.0.encode(out);
        self.1.encode(out);
        self.2.encode(out);
        self.3.encode(out);
        self.4.encode(out);
        self.5.encode(out);
        proof {
            assert(out@ =~= old(out)@ + self.enc_spec());
        }
    }
}

impl<A: Lossless, B: Lossless, C: Lossless, D: Lossless, E: Lossless, F: Lossless> Lossless for (A, B, C, D, E, F) {
    proof fn roundtrip(s: Seq<Scalar>, v: (A, B, C, D, E, F), n: int) {
        <(A, (B, (C, (D, (E, F))))) as Lossless>::roundtrip(s, (v.0, (v.1, (v.2, (v.3, (v.4, v.5))))), n);
        assert(v.enc_spec() =~= (v.0, (v.1, (v.2, (v.3, (v.4, v.5))))).enc_spec());
    }
}

impl<A: Decodable, B: Decodable, C: Decodable, D: Decodable, E: Decodable, F: Decodable, G: Decodable> Decodable for (A, B, C, D, E, F, G) {
    open spec fn dec_spec(s: Seq<Scalar>) -> Option<((A, B, C, D, E, F, G), int)> {
        match <(A, (B, (C, (D, (E, (F, G)))))) as Decodable>::dec_spec(s) {
            Some(p) => Some(((p.0.0, p.0.1.0, p.0.1.1.0, p.0.1.1.1.0, p.0.1.1.1.1.0, p.0.1.1.1.1.1.0, p.0.1.1.1.1.1.1), p.1)),
            None => None,
        }
    }

    proof fn dec_spec_consumes(s: Seq<Scalar>) {
        <(A, (B, (C, (D, (E, (F, G)))))) as Decodable>::dec_spec_consumes(s);
    }

    fn decode_prefix(s: &Vec<Scalar>, pos: usize) -> (r: Option<((A, B, C, D, E, F, G), usize)>) {
        match <(A, (B, (C, (D, (E, (F, G)))))) as Decodable>::decode_prefix(s, pos) {
            Some(((a, (b, (c, (d, (e, (f, g)))))), np)) => Some(((a, b, c, d, e, f, g), np)),
            None => None,
        }
    }
}

impl<A: Encodable, B: Encodable, C: Encodable, D: Encodable, E: Encodable, F: Encodable, G: Encodable> Encodable for (A, B, C, D, E, F, G) {
    open spec fn enc_spec(&self) -> Seq<Scalar> {
        self.0.enc_spec() + self.1.enc_spec() + self.2.enc_spec() + self.3.enc_spec() + self.4.enc_spec() + self.5.enc_spec() + self.6.enc_spec()
    }

    fn encode(&self, out: &mut Vec<Scalar>) {
        self.0.encode(out);
        self.1.encode(out);
        self.2.encode(out);
        self.3.encode(out);
        self.4.encode(out);
        self.5.encode(out);
        self.6.encode(out);
        proof {
            assert(out@ =~= old(out)@ + self.enc_spec());
        }
    }
}

impl<A: Lossless, B: Lossless, C: Lossless, D: Lossless, E: Lossless, F: Lossless, G: Lossless> Lossless for (A, B, C, D, E, F, G) {
    proof fn roundtrip(s: Seq<Scalar>, v: (A, B, C, D, E, F, G), n: int) {
        <(A, (B, (C, (D, (E, (F, G)))))) as Lossless>::roundtrip(s, (v.0, (v.1, (v.2, (v.3, (v.4, (v.5, v.6)))))), n);
        assert(v.enc_spec() =~= (v.0, (v.1, (v.2, (v.3, (v.4, (v.5, v.6)))))).enc_spec());
    }
}

impl<A: Decodable, B: Decodable, C: Decodable, D: Decodable, E: Decodable, F: Decodable, G: Decodable, H: Decodable> Decodable for (A, B, C, D, E, F, G, H) {
    open spec fn dec_spec(s: Seq<Scalar>) -> Option<((A, B, C, D, E, F, G, H), int)> {
        match <(A, (B, (C, (D, (E, (F, (G, H))))))) as Decodable>::dec_spec(s) {
            Some(p) => Some(((p.0.0, p.0.1.0, p.0.1.1.0, p.0.1.1.1.0, p.0.1.1.1.1.0, p.0.1.1.1.1.1.0, p.0.1.1.1.1.1.1.0, p.0.1.1.1.1.1.1.1), p.1)),
            None => None,
        }
    }

    proof fn dec_spec_consumes(s: Seq<Scalar>) {
        <(A, (B, (C, (D, (E, (F, (G, H))))))) as Decodable>::dec_spec_consumes(s);
    }

    fn decode_prefix(s: &Vec<Scalar>, pos: usize) -> (r: Option<((A, B, C, D, E, F, G, H), usize)>) {
        match <(A, (B, (C, (D, (E, (F, (G, H))))))) as Decodable>::decode_prefix(s, pos) {
            Some(((a, (b, (c, (d, (e, (f, (g, h))))))), np)) => Some(((a, b, c, d, e, f, g, h), np)),
            None => None,
        }
    }
}

impl<A: Encodable, B: Encodable, C: Encodable, D: Encodable, E: Encodable, F: Encodable, G: Encodable, H: Encodable> Encodable for (A, B, C, D, E, F, G, H) {
    open spec fn enc_spec(&self) -> Seq<Scalar> {
        self.0.enc_spec() + self.1.enc_spec() + self.2.enc_spec() + self.3.enc_spec() + self.4.enc_spec() + self.5.enc_spec() + self.6.enc_spec() + self.7.enc_spec()
    }

    fn encode(&self, out: &mut Vec<Scalar>) {
        self.0.encode(out);
        self.1.encode(out);
        self.2.encode(out);
        self.3.encode(out);
        self.4.encode(out);
        self.5.encode(out);
        self.6.encode(out);
        self.7.encode(out);
        proof {
            assert(out@ =~= old(out)@ + self.enc_spec());
        }
    }
}

impl<A: Lossless, B: Lossless, C: Lossless, D: Lossless, E: Lossless, F: Lossless, G: Lossless, H: Lossless> Lossless for (A, B, C, D, E, F, G, H) {
    proof fn roundtrip(s: Seq<Scalar>, v: (A, B, C, D, E, F, G, H), n: int) {
        <(A, (B, (C, (D, (E, (F, (G, H))))))) as Lossless>::roundtrip(s, (v.0, (v.1, (v.2, (v.3, (v.4, (v.5, (v.6, v.7))))))), n);
        assert(v.enc_spec() =~= (v.0, (v.1, (v.2, (v.3, (v.4, (v.5, (v.6, v.7))))))).enc_spec());
    }
}

impl<A: Decodable, B: Decodable, C: Decodable, D: Decodable, E: Decodable, F: Decodable, G: Decodable, H: Decodable, I: Decodable> Decodable for (A, B, C, D, E, F, G, H, I) {
    open spec fn dec_spec(s: Seq<Scalar>) -> Option<((A, B, C, D, E, F, G, H, I), int)> {
        match <(A, (B, (C, (D, (E, (F, (G, (H, I)))))))) as Decodable>::dec_spec(s) {
            Some(p) => Some(((p.0.0, p.0.1.0, p.0.1.1.0, p.0.1.1.1.0, p.0.1.1.1.1.0, p.0.1.1.1.1.1.0, p.0.1.1.1.1.1.1.0, p.0.1.1.1.1.1.1.1.0, p.0.1.1.1.1.1.1.1.1), p.1)),
            None => None,
        }
    }

    proof fn dec_spec_consumes(s: Seq<Scalar>) {
        <(A, (B, (C, (D, (E, (F, (G, (H, I)))))))) as Decodable>::dec_spec_consumes(s);
    }

    fn decode_prefix(s: &Vec<Scalar>, pos: usize) -> (r: Option<((A, B, C, D, E, F, G, H, I), usize)>) {
        match <(A, (B, (C, (D, (E, (F, (G, (H, I)))))))) as Decodable>::decode_prefix(s, pos) {
            Some(((a, (b, (c, (d, (e, (f, (g, (h, i)))))))), np)) => Some(((a, b, c, d, e, f, g, h, i), np)),
            None => None,
        }
    }
}

impl<A: Encodable, B: Encodable, C: Encodable, D: Encodable, E: Encodable, F: Encodable, G: Encodable, H: Encodable, I: Encodable> Encodable for (A, B, C, D, E, F, G, H, I) {
    open spec fn enc_spec(&self) -> Seq<Scalar> {
        self.0.enc_spec() + self.1.enc_spec() + self.2.enc_spec() + self.3.enc_spec() + self.4.enc_spec() + self.5.enc_spec() + self.6.enc_spec() + self.7.enc_spec() + self.8.enc_spec()
    }

    fn encode(&self, out: &mut Vec<Scalar>) {
        self.0.encode(out);
        self.1.encode(out);
        self.2.encode(out);
        self.3.encode(out);
        self.4.encode(out);
        self.5.encode(out);
        self.6.encode(out);
        self.7.encode(out);
        self.8.encode(out);
        proof {
            assert(out@ =~= old(out)@ + self.enc_spec());
        }
    }
}

impl<A: Lossless, B: Lossless, C: Lossless, D: Lossless, E: Lossless, F: Lossless, G: Lossless, H: Lossless, I: Lossless> Lossless for (A, B, C, D, E, F, G, H, I) {
    proof fn roundtrip(s: Seq<Scalar>, v: (A, B, C, D, E, F, G, H, I), n: int) {
        <(A, (B, (C, (D, (E, (F, (G, (H, I)))))))) as Lossless>::roundtrip(s, (v.0, (v.1, (v.2, (v.3, (v.4, (v.5, (v.6, (v.7, v.8)))))))), n);
        assert(v.enc_spec() =~= (v.0, (v.1, (v.2, (v.3, (v.4, (v.5, (v.6, (v.7, v.8)))))))).enc_spec());
    }
}

impl<A: Decodable, B: Decodable, C: Decodable, D: Decodable, E: Decodable, F: Decodable, G: Decodable, H: Decodable, I: Decodable, J: Decodable> Decodable for (A, B, C, D, E, F, G, H, I, J) {
    open spec fn dec_spec(s: Seq<Scalar>) -> Option<((A, B, C, D, E, F, G, H, I, J), int)> {
        match <(A, (B, (C, (D, (E, (F, (G, (H, (I, J))))))))) as Decodable>::dec_spec(s) {
            Some(p) => Some(((p.0.0, p.0.1.0, p.0.1.1.0, p.0.1.1.1.0, p.0.1.1.1.1.0, p.0.1.1.1.1.1.0, p.0.1.1.1.1.1.1.0, p.0.1.1.1.1.1.1.1.0, p.0.1.1.1.1.1.1.1.1.0, p.0.1.1.1.1.1.1.1.1.1), p.1)),
            None => None,
        }
    }

    proof fn dec_spec_consumes(s: Seq<Scalar>) {
        <(A, (B, (C, (D, (E, (F, (G, (H, (I, J))))))))) as Decodable>::dec_spec_consumes(s);
    }

    fn decode_prefix(s: &Vec<Scalar>, pos: usize) -> (r: Option<((A, B, C, D, E, F, G, H, I, J), usize)>) {
        match <(A, (B, (C, (D, (E, (F, (G, (H, (I, J))))))))) as Decodable>::decode_prefix(s, pos) {
            Some(((a, (b, (c, (d, (e, (f, (g, (h, (i, j))))))))), np)) => Some(((a, b, c, d, e, f, g, h, i, j), np)),
            None => None,
        }
    }
}

impl<A: Encodable, B: Encodable, C: Encodable, D: Encodable, E: Encodable, F: Encodable, G: Encodable, H: Encodable, I: Encodable, J: Encodable> Encodable for (A, B, C, D, E, F, G, H, I, J) {
    open spec fn enc_spec(&self) -> Seq<Scalar> {
        self.0.enc_spec() + self.1.enc_spec() + self.2.enc_spec() + self.3.enc_spec() + self.4.enc_spec() + self.5.enc_spec() + self.6.enc_spec() + self.7.enc_spec() + self.8.enc_spec() + self.9.enc_spec()
    }

    fn encode(&self, out: &mut Vec<Scalar>) {
        self.0.encode(out);
        self.1.encode(out);
        self.2.encode(out);
        self.3.encode(out);
        self.4.encode(out);
        self.5.encode(out);
        self.6.encode(out);
        self.7.encode(out);
        self.8.encode(out);
        self.9.encode(out);
        proof {
            assert(out@ =~= old(out)@ + self.enc_spec());
        }
    }
}

impl<A: Lossless, B: Lossless, C: Lossless, D: Lossless, E: Lossless, F: Lossless, G: Lossless, H: Lossless, I: Lossless, J: Lossless> Lossless for (A, B, C, D, E, F, G, H, I, J) {
    proof fn roundtrip(s: Seq<Scalar>, v: (A, B, C, D, E, F, G, H, I, J), n: int) {
        <(A, (B, (C, (D, (E, (F, (G, (H, (I, J))))))))) as Lossless>::roundtrip(s, (v.0, (v.1, (v.2, (v.3, (v.4, (v.5, (v.6, (v.7, (v.8, v.9))))))))), n);
        assert(v.enc_spec() =~= (v.0, (v.1, (v.2, (v.3, (v.4, (v.5, (v.6, (v.7, (v.8, v.9))))))))).enc_spec());
    }
}

impl<A: Decodable, B: Decodable, C: Decodable, D: Decodable, E: Decodable, F: Decodable, G: Decodable, H: Decodable, I: Decodable, J: Decodable, K: Decodable> Decodable for (A, B, C, D, E, F, G, H, I, J, K) {
    open spec fn dec_spec(s: Seq<Scalar>) -> Option<((A, B, C, D, E, F, G, H, I, J, K), int)> {
        match <(A, (B, (C, (D, (E, (F, (G, (H, (I, (J, K)))))))))) as Decodable>::dec_spec(s) {
            Some(p) => Some(((p.0.0, p.0.1.0, p.0.1.1.0, p.0.1.1.1.0, p.0.1.1.1.1.0, p.0.1.1.1.1.1.0, p.0.1.1.1.1.1.1.0, p.0.1.1.1.1.1.1.1.0, p.0.1.1.1.1.1.1.1.1.0, p.0.1.1.1.1.1.1.1.1.1.0, p.0.1.1.1.1.1.1.1.1.1.1), p.1)),
            None => None,
        }
    }

    proof fn dec_spec_consumes(s: Seq<Scalar>) {
        <(A, (B, (C, (D, (E, (F, (G, (H, (I, (J, K)))))))))) as Decodable>::dec_spec_consumes(s);
    }

    fn decode_prefix(s: &Vec<Scalar>, pos: usize) -> (r: Option<((A, B, C, D, E, F, G, H, I, J, K), usize)>) {
        match <(A, (B, (C, (D, (E, (F, (G, (H, (I, (J, K)))))))))) as Decodable>::decode_prefix(s, pos) {
            Some(((a, (b, (c, (d, (e, (f, (g, (h, (i, (j, k)))))))))), np)) => Some(((a, b, c, d, e, f, g, h, i, j, k), np)),
            None => None,
        }
    }
}

impl<A: Encodable, B: Encodable, C: Encodable, D: Encodable, E: Encodable, F: Encodable, G: Encodable, H: Encodable, I: Encodable, J: Encodable, K: Encodable> Encodable for (A, B, C, D, E, F, G, H, I, J, K) {
    open spec fn enc_spec(&self) -> Seq<Scalar> {
        self.0.enc_spec() + self.1.enc_spec() + self.2.enc_spec() + self.3.enc_spec() + self.4.enc_spec() + self.5.enc_spec() + self.6.enc_spec() + self.7.enc_spec() + self.8.enc_spec() + self.9.enc_spec() + self.10.enc_spec()
    }

    fn encode(&self, out: &mut Vec<Scalar>) {
        self.0.encode(out);
        self.1.encode(out);
        self.2.encode(out);
        self.3.encode(out);
        self.4.encode(out);
        self.5.encode(out);
        self.6.encode(out);
        self.7.encode(out);
        self.8.encode(out);
        self.9.encode(out);
        self.10.encode(out);
        proof {
            assert(out@ =~= old(out)@ + self.enc_spec());
        }
    }
}

impl<A: Lossless, B: Lossless, C: Lossless, D: Lossless, E: Lossless, F: Lossless, G: Lossless, H: Lossless, I: Lossless, J: Lossless, K: Lossless> Lossless for (A, B, C, D, E, F, G, H, I, J, K) {
    proof fn roundtrip(s: Seq<Scalar>, v: (A, B, C, D, E, F, G, H, I, J, K), n: int) {
        <(A, (B, (C, (D, (E, (F, (G, (H, (I, (J, K)))))))))) as Lossless>::roundtrip(s, (v.0, (v.1, (v.2, (v.3, (v.4, (v.5, (v.6, (v.7, (v.8, (v.9, v.10)))))))))), n);
        assert(v.enc_spec() =~= (v.0, (v.1, (v.2, (v.3, (v.4, (v.5, (v.6, (v.7, (v.8, (v.9, v.10)))))))))).enc_spec());
    }
}

impl<A: Decodable, B: Decodable, C: Decodable, D: Decodable, E: Decodable, F: Decodable, G: Decodable, H: Decodable, I: Decodable, J: Decodable, K: Decodable, L: Decodable> Decodable for (A, B, C, D, E, F, G, H, I, J, K, L) {
    open spec fn dec_spec(s: Seq<Scalar>) -> Option<((A, B, C, D, E, F, G, H, I, J, K, L), int)> {
        match <(A, (B, (C, (D, (E, (F, (G, (H, (I, (J, (K, L))))))))))) as Decodable>::dec_spec(s) {
            Some(p) => Some(((p.0.0, p.0.1.0, p.0.1.1.0, p.0.1.1.1.0, p.0.1.1.1.1.0, p.0.1.1.1.1.1.0, p.0.1.1.1.1.1.1.0, p.0.1.1.1.1.1.1.1.0, p.0.1.1.1.1.1.1.1.1.0, p.0.1.1.1.1.1.1.1.1.1.0, p.0.1.1.1.1.1.1.1.1.1.1.0, p.0.1.1.1.1.1.1.1.1.1.1.1), p.1)),
            None => None,
        }
    }

    proof fn dec_spec_consumes(s: Seq<Scalar>) {
        <(A, (B, (C, (D, (E, (F, (G, (H, (I, (J, (K, L))))))))))) as Decodable>::dec_spec_consumes(s);
    }

    fn decode_prefix(s: &Vec<Scalar>, pos: usize) -> (r: Option<((A, B, C, D, E, F, G, H, I, J, K, L), usize)>) {
        match <(A, (B, (C, (D, (E, (F, (G, (H, (I, (J, (K, L))))))))))) as Decodable>::decode_prefix(s, pos) {
            Some(((a, (b, (c, (d, (e, (f, (g, (h, (i, (j, (k, l))))))))))), np)) => Some(((a, b, c, d, e, f, g, h, i, j, k, l), np)),
            None => None,
        }
    }
}

impl<A: Encodable, B: Encodable, C: Encodable, D: Encodable, E: Encodable, F: Encodable, G: Encodable, H: Encodable, I: Encodable, J: Encodable, K: Encodable, L: Encodable> Encodable for (A, B, C, D, E, F, G, H, I, J, K, L) {
    open spec fn enc_spec(&self) -> Seq<Scalar> {
        self.0.enc_spec() + self.1.enc_spec() + self.2.enc_spec() + self.3.enc_spec() + self.4.enc_spec() + self.5.enc_spec() + self.6.enc_spec() + self.7.enc_spec() + self.8.enc_spec() + self.9.enc_spec() + self.10.enc_spec() + self.11.enc_spec()
    }

    fn encode(&self, out: &mut Vec<Scalar>) {
        self.0.encode(out);
        self.1.encode(out);
        self.2.encode(out);
        self.3.encode(out);
        self.4.encode(out);
        self.5.encode(out);
        self.6.encode(out);
        self.7.encode(out);
        self.8.encode(out);
        self.9.encode(out);
        self.10.encode(out);
        self.11.encode(out);
        proof {
            assert(out@ =~= old(out)@ + self.enc_spec());
        }
    }
}

impl<A: Lossless, B: Lossless, C: Lossless, D: Lossless, E: Lossless, F: Lossless, G: Lossless, H: Lossless, I: Lossless, J: Lossless, K: Lossless, L: Lossless> Lossless for (A, B, C, D, E, F, G, H, I, J, K, L) {
    proof fn roundtrip(s: Seq<Scalar>, v: (A, B, C, D, E, F, G, H, I, J, K, L), n: int) {
        <(A, (B, (C, (D, (E, (F, (G, (H, (I, (J, (K, L))))))))))) as Lossless>::roundtrip(s, (v.0, (v.1, (v.2, (v.3, (v.4, (v.5, (v.6, (v.7, (v.8, (v.9, (v.10, v.11))))))))))), n);
        assert(v.enc_spec() =~= (v.0, (v.1, (v.2, (v.3, (v.4, (v.5, (v.6, (v.7, (v.8, (v.9, (v.10, v.11))))))))))).enc_spec());
    }
}

} // verus!
