//! What the library knows of an HTTP exchange: the request that is to be
//! sent, and what came of sending it.
use crate::json::JsonTree;
use crate::json::JsonValue;
use crate::text::optional_text;
use vstd::prelude::*;

verus! {

/// A POST request with a JSON body.
#[derive(Debug, PartialEq, Eq)]
pub struct PostRequest {
    pub url: String,
    /// The access token that goes into the `Authorization` header, if any.
    pub bearer: Option<String>,
    pub body: JsonValue,
}

/// What a [`PostRequest`] says.
pub ghost struct PostRequestView {
    pub url: Seq<char>,
    pub bearer: Option<Seq<char>>,
    pub body: JsonTree,
}

impl View for PostRequest {
    type V = PostRequestView;

    open spec fn view(&self) -> PostRequestView {
        PostRequestView {
            url: self.url@,
            bearer: optional_text(self.bearer),
            body: self.body@,
        }
    }
}

/// An answer to a request.
#[derive(Debug, PartialEq, Eq)]
pub struct HttpReply {
    pub status: u16,
    /// The status with its reason, as in `404 Not Found`.
    pub status_line: String,
    pub body: String,
}

/// What came of sending a request.
#[derive(Debug, PartialEq, Eq)]
pub enum Delivery {
    /// An answer arrived.
    Reply(HttpReply),
    /// The request could not be sent; says why.
    SendFailed(String),
    /// The answer's body could not be read; says why.
    ReadFailed(String),
}

/// What a [`Delivery`] says.
pub ghost enum DeliveryView {
    Reply { status: u16, status_line: Seq<char>, body: Seq<char> },
    SendFailed(Seq<char>),
    ReadFailed(Seq<char>),
}

impl View for Delivery {
    type V = DeliveryView;

    open spec fn view(&self) -> DeliveryView {
        match self {
            Delivery::Reply(reply) => DeliveryView::Reply {
                status: reply.status,
                status_line: reply.status_line@,
                body: reply.body@,
            },
            Delivery::SendFailed(cause) => DeliveryView::SendFailed(cause@),
            Delivery::ReadFailed(cause) => DeliveryView::ReadFailed(cause@),
        }
    }
}

impl DeliveryView {
    /// The answer's body; nothing where no answer arrived.
    pub open spec fn body(self) -> Seq<char> {
        match self {
            DeliveryView::Reply { body, .. } => body,
            _ => Seq::empty(),
        }
    }
}

impl Delivery {
    /// Takes the answer's body; nothing where no answer arrived.
    pub fn into_body(self) -> (body: String)
        ensures
            body@ == self@.body(),
    {
        match self {
            Delivery::Reply(reply) => reply.body,
            _ => String::new(),
        }
    }
}

/// Whether a status code reports success.
pub open spec fn is_success(status: u16) -> bool {
    200 <= status < 300
}

/// Success is a status from 200 up to 299 and no other.
pub proof fn law_only_200_to_299_is_success(status: u16)
    ensures
        status < 200 || status >= 300 ==> !is_success(status),
        200 <= status && status <= 299 ==> is_success(status),
{
}

/// The body of a delivery is that of the answer; a request or an answer that
/// was lost has none.
pub proof fn law_only_answers_have_bodies(delivery: Delivery, request: PostRequest)
    ensures
        delivery matches Delivery::Reply(reply) ==> delivery@.body() == reply.body@ && delivery@
            == (DeliveryView::Reply {
            status: reply.status,
            status_line: reply.status_line@,
            body: reply.body@,
        }),
        delivery matches Delivery::SendFailed(cause) ==> delivery@.body().len() == 0 && delivery@
            == DeliveryView::SendFailed(cause@),
        delivery matches Delivery::ReadFailed(cause) ==> delivery@.body().len() == 0 && delivery@
            == DeliveryView::ReadFailed(cause@),
        request@.url == request.url@,
        request@.bearer == optional_text(request.bearer),
        request@.body == request.body@,
{
}

} // verus!
