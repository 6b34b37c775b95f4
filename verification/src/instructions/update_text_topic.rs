use vstd::prelude::*;
use vstd::utf8::encode_utf8;

use crate::error::NamaphError;
use crate::model::text::TextTopic;
use crate::pubkey::Pubkey;

verus! {

/// What `update_text_topic` reads and writes: the text topic and the signer.
#[derive(Clone, Debug, PartialEq, Eq)]
pub struct UpdateTextTopic {
    pub text_topic: TextTopic,
    pub authority: Pubkey,
}

/// Replacing the body with `body` takes the context from `old_ctx` to
/// `new_ctx` and gives `res`.
pub open spec fn text_body_updated(
    old_ctx: UpdateTextTopic,
    new_ctx: UpdateTextTopic,
    body: String,
    res: Result<(), NamaphError>,
) -> bool {
    if !(encode_utf8(body@).len() < TextTopic::MAX_BODY_BYTES) {
        &&& res == Err::<(), NamaphError>(NamaphError::StringTooLong)
        &&& new_ctx == old_ctx
    } else {
        &&& res == Ok::<(), NamaphError>(())
        &&& new_ctx == (UpdateTextTopic {
            text_topic: (TextTopic { body: body, ..old_ctx.text_topic }),
            ..old_ctx
        })
    }
}

/// Replaces the body of the text topic with `body`, if it is shorter than
/// the topic allows in bytes.
pub fn handle(ctx: &mut UpdateTextTopic, body: String) -> (res: Result<(), NamaphError>)
    ensures
        text_body_updated(*old(ctx), *final(ctx), body, res),
        old(ctx).text_topic.well_formed() ==> final(ctx).text_topic.well_formed(),
{
    if !(body.as_str().as_bytes().len() < TextTopic::MAX_BODY_BYTES) {
        return Err(NamaphError::StringTooLong);
    }
    ctx.text_topic.body = body;
    Ok(())
}

} // verus!
