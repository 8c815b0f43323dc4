use vstd::prelude::*;
use crate::codec::{Decodable, Encodable, Lossless};
use crate::scalar::Scalar;
use vstd::string::StringExecFns;

verus! {

/// Why invoking a handler on some calldata failed.
#[derive(Debug)]
pub enum InvokeFault {
    /// The calldata did not decode into the handler's parameter list, or
    /// left scalars unconsumed. The text describes the mismatch.
    BadParams(String),
    /// The handler body itself rejected its inputs. The text is the
    /// handler's own diagnostic.
    Failed(String),
}

/// A registered procedure, presented behind a uniform type-erased contract:
/// take the raw calldata, answer with the encoded result or a fault.
///
/// A handler may own state that each invocation updates in place; the four
/// spec functions pin, for every calldata sequence, whether it decodes,
/// whether the call succeeds, what it answers, and the state it leaves
/// behind.
pub trait Handler: Sized {
    /// Whether `cd` decodes into the handler's parameter list exactly,
    /// with no scalar left over.
    spec fn decodes(self, cd: Seq<Scalar>) -> bool;

    /// Whether the handler body answers `Ok` on the decoded parameters.
    /// Meaningful only when `decodes` holds.
    spec fn succeeds(self, cd: Seq<Scalar>) -> bool;

    /// The encoded scalars of the handler's answer, when it succeeds.
    spec fn result_of(self, cd: Seq<Scalar>) -> Seq<Scalar>;

    /// The handler state after one invocation on `cd`.
    spec fn next_state(self, cd: Seq<Scalar>) -> Self;

    /// Invokes the handler on `cd`: decode positionally, run the body,
    /// encode the answer.
    fn invoke_untyped(&mut self, cd: &Vec<Scalar>) -> (r: Result<Vec<Scalar>, InvokeFault>)
        ensures
            *final(self) == (*old(self)).next_state(cd@),
            !(*old(self)).decodes(cd@) ==> (r matches Err(f) && f is BadParams),
            (*old(self)).decodes(cd@) && !(*old(self)).succeeds(cd@) ==> (r matches Err(f)
                && f is Failed),
            (*old(self)).decodes(cd@) && (*old(self)).succeeds(cd@) ==> (r matches Ok(v)
                && v@ == (*old(self)).result_of(cd@)),
    ;
}

/// A native callable with a statically known parameter list, ready to be
/// bound into the uniform [`Handler`] contract by [`Typed`].
///
/// `Args` is the parameter-type tuple: any tuple of [`Decodable`] types of
/// up to twelve parameters, and longer lists can nest pairs, so the binding
/// covers every arity without per-arity code at the call site.
pub trait TypedCall: Sized {
    /// The parameter-type tuple, decoded positionally from calldata.
    type Args: Decodable;

    /// The return type, encoded into the answer.
    type Ret: Encodable;

    /// Whether the body answers `Ok` on `args` in state `self`.
    spec fn call_succeeds(self, args: Self::Args) -> bool;

    /// The body's answer on `args` in state `self`, when it succeeds.
    spec fn call_result(self, args: Self::Args) -> Self::Ret;

    /// The state the body leaves behind after one call on `args`.
    spec fn call_next(self, args: Self::Args) -> Self;

    /// Runs the body once. The error text is the handler's own diagnostic.
    fn call(&mut self, args: Self::Args) -> (r: Result<Self::Ret, String>)
        ensures
            *final(self) == (*old(self)).call_next(args),
            r is Ok <==> (*old(self)).call_succeeds(args),
            (r matches Ok(v) ==> v == (*old(self)).call_result(args)),
    ;
}

/// Binds a [`TypedCall`] into the type-erased [`Handler`] contract: the
/// generic adapter that decodes calldata into the native parameter tuple,
/// runs the body, and encodes the answer.
pub struct Typed<H: TypedCall>(pub H);

impl<H: TypedCall> Handler for Typed<H> {
    open spec fn decodes(self, cd: Seq<Scalar>) -> bool {
        match <H::Args as Decodable>::dec_spec(cd) {
            Some(p) => p.1 == cd.len(),
            None => false,
        }
    }

    open spec fn succeeds(self, cd: Seq<Scalar>) -> bool {
        match <H::Args as Decodable>::dec_spec(cd) {
            Some(p) => p.1 == cd.len() && self.0.call_succeeds(p.0),
            None => false,
        }
    }

    open spec fn result_of(self, cd: Seq<Scalar>) -> Seq<Scalar> {
        match <H::Args as Decodable>::dec_spec(cd) {
            Some(p) => self.0.call_result(p.0).enc_spec(),
            None => Seq::empty(),
        }
    }

    open spec fn next_state(self, cd: Seq<Scalar>) -> Self {
        match <H::Args as Decodable>::dec_spec(cd) {
            Some(p) => if p.1 == cd.len() {
                Typed(self.0.call_next(p.0))
            } else {
                self
            },
            None => self,
        }
    }

    fn invoke_untyped(&mut self, cd: &Vec<Scalar>) -> (r: Result<Vec<Scalar>, InvokeFault>) {
        proof {
            assert(cd@.skip(0) =~= cd@);
        }
        match <H::Args as Decodable>::decode_prefix(cd, 0) {
            None => Err(InvokeFault::BadParams(String::from_str("calldata does not decode into the parameter list"))),
            Some((args, consumed)) => {
                if consumed != cd.len() {
                    return Err(InvokeFault::BadParams(String::from_str("unexpected parameters")));
                }
                match self.0.call(args) {
                    Err(detail) => Err(InvokeFault::Failed(detail)),
                    Ok(value) => {
                        let mut out: Vec<Scalar> = Vec::new();
                        value.encode(&mut out);
                        proof {
                            assert(out@ =~= value.enc_spec());
                        }
                        Ok(out)
                    }
                }
            }
        }
    }
}

/// When a typed handler over a lossless parameter tuple accepts some
/// calldata, that calldata is exactly the encoding of the arguments the
/// body receives. So an identity-like handler, one whose answer is its
/// argument tuple, answers an invoke with precisely the scalars it was
/// given.
pub proof fn lemma_accepted_calldata_reencodes<H: TypedCall>(h: Typed<H>, cd: Seq<Scalar>) where
    H::Args: Lossless

    requires
        h.decodes(cd),
    ensures
        (<H::Args as Decodable>::dec_spec(cd) matches Some(p) && p.0.enc_spec() == cd),
{
    let p = <H::Args as Decodable>::dec_spec(cd)->Some_0;
    <H::Args as Lossless>::roundtrip(cd, p.0, p.1);
    assert(cd.take(cd.len() as int) =~= cd);
}

/// Calldata that does not decode into a typed handler's parameter list —
/// a wrong count among them — leaves the handler's state untouched: the
/// body is never entered.
pub proof fn lemma_undecodable_calldata_leaves_state<H: TypedCall>(h: Typed<H>, cd: Seq<Scalar>)
    requires
        !h.decodes(cd),
    ensures
        h.next_state(cd) == h,
{
}

} // verus!
