//! The connecting side of a forwarded port.
use crate::error::report_messages;
use crate::protocol::{ConnId, ConnecterAction, ListenerAction, PortId, Response, StreamId};
use color_eyre::eyre::Report;
use vstd::prelude::*;

verus! {

/// What the connecting side has to do next.
#[derive(Debug, Clone, Copy, PartialEq, Eq, Structural)]
pub enum ConnecterStep {
    /// Make a connection for this stream, while other requests are taken.
    Connect(StreamId, ConnId),
    /// Stop: the listening side is closed or gone.
    Stop,
}

/// The connecting side of a port.
pub struct Task {
    pub port_id: PortId,
}

impl Task {
    pub fn new(port_id: PortId) -> (task: Self)
        ensures
            task.port_id == port_id,
    {
        Task { port_id }
    }

    /// Takes the next request, if one comes.
    pub fn handle(&self, request: Option<ListenerAction>) -> (step: ConnecterStep)
        ensures
            step == match request {
                Some(ListenerAction::Connect(conn)) => ConnecterStep::Connect(
                    StreamId::Forward(self.port_id, conn),
                    conn,
                ),
                Some(ListenerAction::ListenerClosed) | None => ConnecterStep::Stop,
            },
    {
        match request {
            Some(ListenerAction::Connect(conn)) => ConnecterStep::Connect(
                StreamId::Forward(self.port_id, conn),
                conn,
            ),
            Some(ListenerAction::ListenerClosed) | None => ConnecterStep::Stop,
        }
    }

    /// The answer to a request for a connection, once it is made or has failed. The streams of
    /// the connection are started only where it is made.
    pub fn connect<T>(&self, conn: ConnId, res: &Result<T, Report>) -> (answer: ConnecterAnswer)
        ensures
            answer.port == self.port_id,
            answer.start_streams == (res is Ok),
            answer.action matches ConnecterAction::ConnectResponse(answered, response) && answered
                == conn && match *res {
                Ok(_) => response is Success,
                Err(err) => response matches Response::Failure(serial) && serial@
                    == report_messages(err) && serial@.len() > 0,
            },
    {
        ConnecterAnswer {
            port: self.port_id,
            action: ConnecterAction::ConnectResponse(conn, Response::new(res)),
            start_streams: res.is_ok(),
        }
    }
}

/// The connection whose streams are to be started, once its answer was sent or could not be: none
/// for an answer that nobody gets.
pub fn answered<T>(sent: Result<(), Report>, res: Result<T, Report>) -> (out: Result<T, Report>)
    ensures
        out == match sent {
            Ok(_) => res,
            Err(err) => Err(err),
        },
{
    match sent {
        Ok(()) => res,
        Err(err) => Err(err),
    }
}

/// What the connecting side answers, and whether it goes on with the streams of the connection.
#[derive(Debug, Clone, PartialEq, Eq)]
pub struct ConnecterAnswer {
    pub port: PortId,
    pub action: ConnecterAction,
    pub start_streams: bool,
}

} // verus!
