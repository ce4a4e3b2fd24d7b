//! The outcome envelope returned to the workflow's caller, together with the
//! HTTP status code it is served under.

use vstd::prelude::*;

verus! {

/// Whether the request as a whole succeeded.
#[derive(Clone, Copy, Debug, PartialEq, Eq, Structural)]
pub enum ReqStatus {
    Success,
    Fail,
}

/// JSON envelope body: `msg` carries a friendly hint, `detail` the original
/// error text (or a confirmation detail on success).
#[derive(Clone, Debug, PartialEq, Eq)]
pub struct MsgResp {
    pub status: ReqStatus,
    pub msg: String,
    pub detail: String,
}

/// Mathematical model of an envelope body.
pub struct MsgRespView {
    pub status: ReqStatus,
    pub msg: Seq<char>,
    pub detail: Seq<char>,
}

impl View for MsgResp {
    type V = MsgRespView;

    open spec fn view(&self) -> MsgRespView {
        MsgRespView { status: self.status, msg: self.msg@, detail: self.detail@ }
    }
}

/// A full response: the envelope body plus the HTTP status code it maps to.
#[derive(Clone, Debug, PartialEq, Eq)]
pub struct Resp {
    pub code: u16,
    pub body: MsgResp,
}

/// Mathematical model of a full response.
pub struct RespView {
    pub code: u16,
    pub body: MsgRespView,
}

impl View for Resp {
    type V = RespView;

    open spec fn view(&self) -> RespView {
        RespView { code: self.code, body: self.body@ }
    }
}

/// Success response: code 200, fixed confirmation message.
pub open spec fn resp_200(detail: Seq<char>) -> RespView {
    RespView {
        code: 200,
        body: MsgRespView { status: ReqStatus::Success, msg: "Request success"@, detail },
    }
}

/// Internal-server-error response: code 500, caller-chosen hint.
pub open spec fn resp_500(msg: Seq<char>, detail: Seq<char>) -> RespView {
    RespView { code: 500, body: MsgRespView { status: ReqStatus::Fail, msg, detail } }
}

/// Forbidden response: code 403, fixed message.
pub open spec fn resp_403(detail: Seq<char>) -> RespView {
    RespView {
        code: 403,
        body: MsgRespView { status: ReqStatus::Fail, msg: "forbidden"@, detail },
    }
}

/// Bad-request response: code 400, fixed message.
pub open spec fn resp_400(detail: Seq<char>) -> RespView {
    RespView {
        code: 400,
        body: MsgRespView { status: ReqStatus::Fail, msg: "bad request"@, detail },
    }
}

impl MsgResp {
    pub fn new_200_msg(detail: String) -> (r: Resp)
        ensures
            r@ == resp_200(detail@),
    {
        Resp {
            code: 200,
            body: MsgResp {
                status: ReqStatus::Success,
                msg: String::from_str("Request success"),
                detail,
            },
        }
    }

    pub fn new_500_resp(msg: &str, detail: String) -> (r: Resp)
        ensures
            r@ == resp_500(msg@, detail@),
    {
        Resp {
            code: 500,
            body: MsgResp { status: ReqStatus::Fail, msg: msg.to_owned(), detail },
        }
    }

    pub fn new_403_resp(detail: &str) -> (r: Resp)
        ensures
            r@ == resp_403(detail@),
    {
        Resp {
            code: 403,
            body: MsgResp {
                status: ReqStatus::Fail,
                msg: String::from_str("forbidden"),
                detail: detail.to_owned(),
            },
        }
    }

    pub fn new_400_resp(detail: String) -> (r: Resp)
        ensures
            r@ == resp_400(detail@),
    {
        Resp {
            code: 400,
            body: MsgResp {
                status: ReqStatus::Fail,
                msg: String::from_str("bad request"),
                detail,
            },
        }
    }
}

} // verus!
