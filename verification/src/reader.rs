//! Taking updates off the channel and decoding them.

use crate::channel::try_receive;
use crate::poller::Update;
use vstd::prelude::*;

verus! {

/// What the reader gets for `received`, the update that was taken off the
/// channel, if any.
///
/// - Nothing received: nothing new.
/// - A failure: the same failure, its text as it is.
/// - A body: whatever `decode` makes of it, a record or the text that
///   says why there is none. `decode` is called on the body, once, and in
///   no other case.
pub fn deliver<W, F: FnOnce(String) -> Result<W, String>>(
    received: Option<Update>,
    decode: F,
) -> (update: Option<Result<W, String>>)
    requires
        received matches Some(Ok(body)) ==> decode.requires((body,)),
    ensures
        received is None ==> update is None,
        received matches Some(Err(text)) ==> update == Some(Err::<W, String>(text)),
        received matches Some(Ok(body)) ==> update is Some && decode.ensures((body,), update->0),
{
    match received {
        None => None,
        Some(Err(text)) => Some(Err(text)),
        Some(Ok(body)) => Some(decode(body)),
    }
}

/// A body that the decoder refuses reaches the reader as a failure: where
/// `decode` has nothing but failures for `body`, what `deliver` returns for
/// that body is a failure that carries the text `decode` gave.
pub proof fn lemma_refused_body_is_a_failure<W, F: FnOnce(String) -> Result<W, String>>(
    body: String,
    decode: F,
    update: Option<Result<W, String>>,
)
    requires
        forall|outcome: Result<W, String>| decode.ensures((body,), outcome) ==> outcome is Err,
        update is Some && decode.ensures((body,), update->0),
    ensures
        update matches Some(Err(text)) && decode.ensures((body,), Err::<W, String>(text)),
{
    let outcome = update->0;
    assert(outcome is Err);
    assert(outcome == Err::<W, String>(outcome->Err_0));
}

/// Takes at most one update off `receiver`, without waiting, and hands it
/// on as `deliver` says: `None` where nothing is there, a failure as it
/// came, a body as `decode` reads it.
pub fn update_with<W, F: FnOnce(String) -> Result<W, String>>(
    receiver: &std::sync::mpsc::Receiver<Update>,
    decode: F,
) -> (update: Option<Result<W, String>>)
    requires
        forall|body: String| decode.requires((body,)),
    ensures
        update matches Some(Ok(record)) ==> exists|body: String|
            decode.ensures((body,), Ok::<W, String>(record)),
{
    let received = try_receive(receiver);
    let update = deliver(received, decode);
    proof {
        if update is Some && update->0 is Ok {
            let body = received->0->Ok_0;
            let record = update->0->Ok_0;
            assert(update->0 == Ok::<W, String>(record));
            assert(decode.ensures((body,), Ok::<W, String>(record)));
        }
    }
    update
}

} // verus!
