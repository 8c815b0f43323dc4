use vstd::prelude::*;
use crate::codec::Encodable;
use crate::handler::{Handler, InvokeFault, Typed, TypedCall};
use crate::scalar::Scalar;
use vstd::string::StringExecFns;

verus! {

/// Squares an even number; rejects odd input and squares that overflow.
pub struct FunnyHash;

impl TypedCall for FunnyHash {
    type Args = (u64,);

    type Ret = u64;

    open spec fn call_succeeds(self, args: (u64,)) -> bool {
        args.0 % 2 == 0 && args.0 * args.0 <= u64::MAX
    }

    open spec fn call_result(self, args: (u64,)) -> u64 {
        (args.0 * args.0) as u64
    }

    open spec fn call_next(self, args: (u64,)) -> Self {
        self
    }

    fn call(&mut self, args: (u64,)) -> (r: Result<u64, String>) {
        let x = args.0;
        if x % 2 != 0 {
            return Err(String::from_str("value must be even"));
        }
        match x.checked_mul(x) {
            Some(sq) => Ok(sq),
            None => Err(String::from_str("value too large to square")),
        }
    }
}

/// Doubles a signed number; rejects doublings that overflow.
pub struct Doubler;

impl TypedCall for Doubler {
    type Args = (i64,);

    type Ret = i64;

    open spec fn call_succeeds(self, args: (i64,)) -> bool {
        i64::MIN <= 2 * args.0 <= i64::MAX
    }

    open spec fn call_result(self, args: (i64,)) -> i64 {
        (2 * args.0) as i64
    }

    open spec fn call_next(self, args: (i64,)) -> Self {
        self
    }

    fn call(&mut self, args: (i64,)) -> (r: Result<i64, String>) {
        match args.0.checked_mul(2) {
            Some(d) => Ok(d),
            None => Err(String::from_str("value too large to double")),
        }
    }
}

/// Adds each action to a running total it owns, and answers with the new
/// total: state mutated in place on every successful call.
pub struct StateAction {
    /// The running total.
    pub total: i64,
}

impl TypedCall for StateAction {
    type Args = (i64,);

    type Ret = i64;

    open spec fn call_succeeds(self, args: (i64,)) -> bool {
        i64::MIN <= self.total + args.0 <= i64::MAX
    }

    open spec fn call_result(self, args: (i64,)) -> i64 {
        (self.total + args.0) as i64
    }

    open spec fn call_next(self, args: (i64,)) -> Self {
        if i64::MIN <= self.total + args.0 <= i64::MAX {
            StateAction { total: (self.total + args.0) as i64 }
        } else {
            self
        }
    }

    fn call(&mut self, args: (i64,)) -> (r: Result<i64, String>) {
        match self.total.checked_add(args.0) {
            Some(t) => {
                self.total = t;
                Ok(t)
            },
            None => Err(String::from_str("running total overflows")),
        }
    }
}

/// The pointwise products of two equally long lists; an unequal length or
/// an overflowing product is rejected.
pub fn zip_mul(a: &Vec<u64>, b: &Vec<u64>) -> (r: Result<Vec<u64>, String>)
    ensures
        r is Ok <==> a@.len() == b@.len() && (forall|i: int|
            0 <= i < a@.len() ==> a@[i] * b@[i] <= u64::MAX),
        r matches Ok(v) ==> v@.len() == a@.len() && (forall|i: int|
            0 <= i < v@.len() ==> v@[i] == a@[i] * b@[i]),
{
    if a.len() != b.len() {
        return Err(String::from_str("vectors must have the same length"));
    }
    let n = a.len();
    let mut out: Vec<u64> = Vec::new();
    let mut i: usize = 0;
    while i < n
        invariant
            n == a@.len(),
            n == b@.len(),
            0 <= i <= n,
            out@.len() == i,
            forall|j: int| 0 <= j < i ==> a@[j] * b@[j] <= u64::MAX,
            forall|j: int| 0 <= j < i ==> out@[j] == a@[j] * b@[j],
        decreases n - i,
    {
        match a[i].checked_mul(b[i]) {
            Some(p) => out.push(p),
            None => {
                return Err(String::from_str("product does not fit"));
            },
        }
        i += 1;
    }
    Ok(out)
}

/// What one invoke reports about a pair of numbers; encodes as the
/// flattened concatenation of its fields' encodings.
pub struct NumberAnalysis {
    /// Whether both factors were odd.
    pub both_are_odd: bool,
    /// Their product.
    pub mul: u64,
}

impl Encodable for NumberAnalysis {
    open spec fn enc_spec(&self) -> Seq<Scalar> {
        self.both_are_odd.enc_spec() + self.mul.enc_spec()
    }

    fn encode(&self, out: &mut Vec<Scalar>) {
        self.both_are_odd.encode(out);
        self.mul.encode(out);
        proof {
            assert(out@ =~= old(out)@ + self.enc_spec());
        }
    }
}

/// The registered form of [`zip_mul`]: a handler that decodes its own
/// calldata, two length-prefixed lists of 64-bit values, and answers with
/// the length-prefixed list of their pointwise products.
///
/// Where the [`Typed`] binding decodes a fixed parameter tuple, this
/// handler implements [`Handler`] directly, as any variable-shape procedure
/// can.
pub struct ZipMul;

impl ZipMul {
    /// The declared length of the first list.
    pub open spec fn n_of(cd: Seq<Scalar>) -> int {
        cd[0].w0 as int
    }

    /// The declared length of the second list.
    pub open spec fn m_of(cd: Seq<Scalar>) -> int {
        cd[1 + Self::n_of(cd)].w0 as int
    }

    /// Element `i` of the first list.
    pub open spec fn a_at(cd: Seq<Scalar>, i: int) -> u64 {
        cd[1 + i].w0
    }

    /// Element `i` of the second list.
    pub open spec fn b_at(cd: Seq<Scalar>, i: int) -> u64 {
        cd[2 + Self::n_of(cd) + i].w0
    }

    /// Whether `cd` reads as `[n, a 0 .. a n-1, m, b 0 .. b m-1]` with
    /// every scalar fitting one limb and nothing left over.
    pub open spec fn shape_ok(cd: Seq<Scalar>) -> bool {
        &&& cd.len() >= 1
        &&& cd[0].is_small()
        &&& cd.len() >= Self::n_of(cd) + 2
        &&& cd[1 + Self::n_of(cd)].is_small()
        &&& cd.len() == 2 + Self::n_of(cd) + Self::m_of(cd)
        &&& (forall|i: int| 1 <= i < 1 + Self::n_of(cd) ==> cd[i].is_small())
        &&& (forall|i: int| 2 + Self::n_of(cd) <= i < cd.len() ==> cd[i].is_small())
    }
}

impl Handler for ZipMul {
    open spec fn decodes(self, cd: Seq<Scalar>) -> bool {
        Self::shape_ok(cd)
    }

    open spec fn succeeds(self, cd: Seq<Scalar>) -> bool {
        &&& Self::shape_ok(cd)
        &&& Self::m_of(cd) == Self::n_of(cd)
        &&& (forall|i: int|
            0 <= i < Self::n_of(cd) ==> #[trigger] Self::a_at(cd, i) * Self::b_at(cd, i)
                <= u64::MAX)
    }

    open spec fn result_of(self, cd: Seq<Scalar>) -> Seq<Scalar> {
        seq![cd[0]] + Seq::new(
            Self::n_of(cd) as nat,
            |i: int|
                Scalar {
                    w0: (Self::a_at(cd, i) * Self::b_at(cd, i)) as u64,
                    w1: 0,
                    w2: 0,
                    w3: 0,
                },
        )
    }

    open spec fn next_state(self, cd: Seq<Scalar>) -> Self {
        self
    }

    fn invoke_untyped(&mut self, cd: &Vec<Scalar>) -> (r: Result<Vec<Scalar>, InvokeFault>) {
        if cd.len() == 0 {
            return Err(InvokeFault::BadParams(String::from_str("missing length prefix")));
        }
        let n64 = match cd[0].to_u64() {
            Some(v) => v,
            None => {
                return Err(InvokeFault::BadParams(String::from_str("length does not fit")));
            },
        };
        if n64 >= cd.len() as u64 {
            return Err(InvokeFault::BadParams(String::from_str("first list truncated")));
        }
        let n = n64 as usize;
        if cd.len() - n < 2 {
            return Err(InvokeFault::BadParams(String::from_str("missing second length")));
        }
        let m64 = match cd[1 + n].to_u64() {
            Some(v) => v,
            None => {
                return Err(InvokeFault::BadParams(String::from_str("length does not fit")));
            },
        };
        if m64 != (cd.len() - 2 - n) as u64 {
            return Err(InvokeFault::BadParams(String::from_str("second list truncated")));
        }
        let m = m64 as usize;
        let total = cd.len();
        let mut i: usize = 0;
        while i < n
            invariant
                n < cd@.len(),
                ZipMul::n_of(cd@) == n,
                0 <= i <= n,
                forall|j: int| 1 <= j < 1 + i ==> cd@[j].is_small(),
            decreases n - i,
        {
            if cd[1 + i].to_u64().is_none() {
                return Err(InvokeFault::BadParams(String::from_str("list element too wide")));
            }
            i += 1;
        }
        let mut i: usize = 0;
        while i < m
            invariant
                total == cd@.len(),
                2 + n + m == cd@.len(),
                ZipMul::n_of(cd@) == n,
                ZipMul::m_of(cd@) == m,
                0 <= i <= m,
                forall|j: int| 2 + n <= j < 2 + n + i ==> cd@[j].is_small(),
            decreases m - i,
        {
            if cd[2 + n + i].to_u64().is_none() {
                return Err(InvokeFault::BadParams(String::from_str("list element too wide")));
            }
            i += 1;
        }
        // The calldata now has the declared shape: what follows is the
        // handler body's own validation.
        if n != m {
            return Err(InvokeFault::Failed(String::from_str(
                "vectors must have the same length",
            )));
        }
        let mut out: Vec<Scalar> = Vec::new();
        out.push(cd[0]);
        let mut i: usize = 0;
        while i < n
            invariant
                total == cd@.len(),
                2 + n + m == cd@.len(),
                n == m,
                ZipMul::shape_ok(cd@),
                ZipMul::n_of(cd@) == n,
                0 <= i <= n,
                out@.len() == 1 + i,
                out@[0] == cd@[0],
                forall|j: int|
                    0 <= j < i ==> #[trigger] ZipMul::a_at(cd@, j) * ZipMul::b_at(cd@, j)
                        <= u64::MAX,
                forall|j: int|
                    1 <= j < 1 + i ==> out@[j] == (Scalar {
                        w0: (ZipMul::a_at(cd@, j - 1) * ZipMul::b_at(cd@, j - 1)) as u64,
                        w1: 0,
                        w2: 0,
                        w3: 0,
                    }),
            decreases n - i,
        {
            let a = cd[1 + i].w0;
            let b = cd[2 + n + i].w0;
            match a.checked_mul(b) {
                Some(p) => out.push(Scalar::from_u64(p)),
                None => {
                    proof {
                        assert(ZipMul::a_at(cd@, i as int) == a);
                        assert(ZipMul::b_at(cd@, i as int) == b);
                    }
                    return Err(InvokeFault::Failed(String::from_str("product does not fit")));
                },
            }
            i += 1;
        }
        proof {
            assert(out@ =~= self.result_of(cd@));
        }
        Ok(out)
    }
}

/// One ready-made handler of each kind, so that a single registry can serve
/// them side by side.
pub enum SampleHandler {
    /// See [`FunnyHash`].
    FunnyHash(Typed<FunnyHash>),
    /// See [`Doubler`].
    Doubler(Typed<Doubler>),
    /// See [`StateAction`].
    StateAction(Typed<StateAction>),
    /// See [`ZipMul`].
    ZipMul(ZipMul),
}

impl Handler for SampleHandler {
    open spec fn decodes(self, cd: Seq<Scalar>) -> bool {
        match self {
            SampleHandler::FunnyHash(t) => t.decodes(cd),
            SampleHandler::Doubler(t) => t.decodes(cd),
            SampleHandler::StateAction(t) => t.decodes(cd),
            SampleHandler::ZipMul(t) => t.decodes(cd),
        }
    }

    open spec fn succeeds(self, cd: Seq<Scalar>) -> bool {
        match self {
            SampleHandler::FunnyHash(t) => t.succeeds(cd),
            SampleHandler::Doubler(t) => t.succeeds(cd),
            SampleHandler::StateAction(t) => t.succeeds(cd),
            SampleHandler::ZipMul(t) => t.succeeds(cd),
        }
    }

    open spec fn result_of(self, cd: Seq<Scalar>) -> Seq<Scalar> {
        match self {
            SampleHandler::FunnyHash(t) => t.result_of(cd),
            SampleHandler::Doubler(t) => t.result_of(cd),
            SampleHandler::StateAction(t) => t.result_of(cd),
            SampleHandler::ZipMul(t) => t.result_of(cd),
        }
    }

    open spec fn next_state(self, cd: Seq<Scalar>) -> Self {
        match self {
            SampleHandler::FunnyHash(t) => SampleHandler::FunnyHash(t.next_state(cd)),
            SampleHandler::Doubler(t) => SampleHandler::Doubler(t.next_state(cd)),
            SampleHandler::StateAction(t) => SampleHandler::StateAction(t.next_state(cd)),
            SampleHandler::ZipMul(t) => SampleHandler::ZipMul(t.next_state(cd)),
        }
    }

    fn invoke_untyped(&mut self, cd: &Vec<Scalar>) -> (r: Result<Vec<Scalar>, InvokeFault>) {
        match self {
            SampleHandler::FunnyHash(t) => t.invoke_untyped(cd),
            SampleHandler::Doubler(t) => t.invoke_untyped(cd),
            SampleHandler::StateAction(t) => t.invoke_untyped(cd),
            SampleHandler::ZipMul(t) => t.invoke_untyped(cd),
        }
    }
}

} // verus!
