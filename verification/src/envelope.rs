//! The response envelope every upstream payload arrives in: a status code, a
//! diagnostic message, and the endpoint-specific data. The data is released
//! to callers only when the status code reports success.

use vstd::prelude::*;
use crate::errors::SdkError;

verus! {

/// The `{retcode, message, data}` wrapper of one upstream response.
pub struct Envelope<T> {
    pub retcode: i32,
    pub message: String,
    pub data: Option<T>,
}

impl<T> Envelope<T> {
    /// Builds an envelope from its parsed parts.
    pub fn new(retcode: i32, message: String, data: Option<T>) -> (r: Envelope<T>)
        ensures
            r.retcode == retcode,
            r.message == message,
            r.data == data,
    {
        Envelope { retcode, message, data }
    }

    /// Releases the payload of a success envelope; a non-zero status code
    /// becomes an upstream failure carrying the embedded message, and the
    /// payload is never touched in that case. A success envelope that lost
    /// its payload is reported as such.
    pub fn into_data(self) -> (r: Result<T, SdkError>)
        ensures
            r is Ok <==> self.retcode == 0 && self.data is Some,
            self.retcode == 0 && self.data is Some ==> r->Ok_0 == self.data->0,
            self.retcode != 0 ==> r->Err_0 == (SdkError::Upstream {
                retcode: self.retcode,
                message: self.message,
            }),
            self.retcode == 0 && self.data is None ==> r->Err_0 == SdkError::MissingData,
    {
        if self.retcode != 0 {
            Err(SdkError::Upstream { retcode: self.retcode, message: self.message })
        } else {
            match self.data {
                Some(d) => Ok(d),
                None => Err(SdkError::MissingData),
            }
        }
    }
}

} // verus!
