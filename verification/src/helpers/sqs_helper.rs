use vstd::prelude::*;
use vstd::string::*;

verus! {

/// The address of a queue. The methods decide what the queue service's answers
/// mean; asking the service is left to the caller.
#[derive(Debug, PartialEq)]
pub struct SQSHelper {
    pub queue_url: String,
}

impl View for SQSHelper {
    type V = Seq<char>;

    open spec fn view(&self) -> Seq<char> {
        self.queue_url@
    }
}

/// A queue's address could not be resolved; `message` says why.
#[derive(Debug, PartialEq)]
pub struct SQSGetQueueUrlError {
    pub message: String,
}

impl View for SQSGetQueueUrlError {
    type V = Seq<char>;

    open spec fn view(&self) -> Seq<char> {
        self.message@
    }
}

/// A message could not be sent; `message` says why.
#[derive(Debug, PartialEq)]
pub struct SQSSendMessageError {
    pub message: String,
}

impl View for SQSSendMessageError {
    type V = Seq<char>;

    open spec fn view(&self) -> Seq<char> {
        self.message@
    }
}

/// The queue could not be polled; `message` says why.
#[derive(Debug, PartialEq)]
pub struct SQSReceiveMessageError {
    pub message: String,
}

impl View for SQSReceiveMessageError {
    type V = Seq<char>;

    open spec fn view(&self) -> Seq<char> {
        self.message@
    }
}

/// How the message about a queue without an address begins.
pub open spec fn unresolved_queue() -> Seq<char> {
    "failed to get queue url for queue name: "@
}

/// What resolving a queue's name comes to: the address that the service gave;
/// an error that names the queue where it answered without an address; its
/// account where asking failed.
pub open spec fn resolved_queue(
    queue_name: Seq<char>,
    resolved: Result<Option<Seq<char>>, Seq<char>>,
) -> Result<Seq<char>, Seq<char>> {
    match resolved {
        Ok(Some(url)) => Ok(url),
        Ok(None) => Err(unresolved_queue() + queue_name),
        Err(account) => Err(account),
    }
}

/// Binds the helper to the address that the service resolved the queue's name
/// to. `resolved` is the service's answer: the address, if it gave one.
pub fn create_sqs_helper(queue_name: &str, resolved: Result<Option<String>, String>) -> (r: Result<
    SQSHelper,
    SQSGetQueueUrlError,
>)
    ensures
        match r {
            Ok(helper) => resolved_queue(
                queue_name@,
                match resolved {
                    Ok(url) => Ok(url.deep_view()),
                    Err(account) => Err(account@),
                },
            ) == Ok::<Seq<char>, Seq<char>>(helper@),
            Err(error) => resolved_queue(
                queue_name@,
                match resolved {
                    Ok(url) => Ok(url.deep_view()),
                    Err(account) => Err(account@),
                },
            ) == Err::<Seq<char>, Seq<char>>(error@),
        },
{
    match resolved {
        Ok(Some(queue_url)) => Ok(SQSHelper { queue_url }),
        Ok(None) => {
            let mut message = String::from_str("failed to get queue url for queue name: ");
            message.append(queue_name);
            Err(SQSGetQueueUrlError { message })
        },
        Err(message) => Err(SQSGetQueueUrlError { message }),
    }
}

impl SQSHelper {
    /// Concludes the sending of a message from the outcome of the request.
    pub fn send_message(&self, sent: Result<(), String>) -> (r: Result<(), SQSSendMessageError>)
        ensures
            match sent {
                Ok(_) => r is Ok,
                Err(account) => r matches Err(error) && error@ == account@,
            },
    {
        match sent {
            Ok(_) => Ok(()),
            Err(message) => Err(SQSSendMessageError { message }),
        }
    }

    /// Concludes one poll of the queue: the messages that came, in their
    /// order; none where the service answered without a list.
    pub fn receive_messages<M>(&self, polled: Result<Option<Vec<M>>, String>) -> (r: Result<
        Vec<M>,
        SQSReceiveMessageError,
    >)
        ensures
            match polled {
                Ok(Some(messages)) => r == Ok::<Vec<M>, SQSReceiveMessageError>(messages),
                Ok(None) => r matches Ok(messages) && messages@.len() == 0,
                Err(account) => r matches Err(error) && error@ == account@,
            },
    {
        match polled {
            Ok(Some(messages)) => Ok(messages),
            Ok(None) => Ok(Vec::new()),
            Err(message) => Err(SQSReceiveMessageError { message }),
        }
    }
}

} // verus!
