use vstd::prelude::*;
use vstd::utf8::encode_utf8;

use crate::error::NamaphError;
use crate::model::url::UrlTopic;
use crate::pubkey::Pubkey;

verus! {

/// What `update_url_topic` reads and writes: the url topic and the signer.
#[derive(Clone, Debug, PartialEq, Eq)]
pub struct UpdateUrlTopic {
    pub url_topic: UrlTopic,
    pub authority: Pubkey,
}

/// Pointing the topic at `url` takes the context from `old_ctx` to
/// `new_ctx` and gives `res`.
pub open spec fn url_updated(
    old_ctx: UpdateUrlTopic,
    new_ctx: UpdateUrlTopic,
    url: String,
    res: Result<(), NamaphError>,
) -> bool {
    if !(encode_utf8(url@).len() < UrlTopic::MAX_URL_BYTES) {
        &&& res == Err::<(), NamaphError>(NamaphError::StringTooLong)
        &&& new_ctx == old_ctx
    } else {
        &&& res == Ok::<(), NamaphError>(())
        &&& new_ctx == (UpdateUrlTopic {
            url_topic: (UrlTopic { url: url, ..old_ctx.url_topic }),
            ..old_ctx
        })
    }
}

/// Points the url topic at `url`, if it is shorter than the topic allows in
/// bytes.
pub fn handle(ctx: &mut UpdateUrlTopic, _proposer: Pubkey, _title: String, url: String) -> (res:
    Result<(), NamaphError>)
    ensures
        url_updated(*old(ctx), *final(ctx), url, res),
        old(ctx).url_topic.well_formed() ==> final(ctx).url_topic.well_formed(),
{
    if !(url.as_str().as_bytes().len() < UrlTopic::MAX_URL_BYTES) {
        return Err(NamaphError::StringTooLong);
    }
    ctx.url_topic.url = url;
    Ok(())
}

} // verus!
