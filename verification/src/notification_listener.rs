//! Producers: sources of push notifications, and the step that turns the next
//! notification into a pending build request.
//!
//! A source hands out what was delivered to it, oldest first. `None` from a source is
//! final: the source is closed and its producer stops. That nothing has arrived yet is a
//! different thing, and no source reports it as `None`.

use vstd::prelude::*;
use crate::builds::BuildInsert;
use crate::channel::NotificationChannel;
use crate::database::{add_pending_spec, Database, DatabaseEntry, QueueError};

verus! {

/// `hyper::Error`, the error with which the HTTP listener fails to start. Nothing is
/// said of what it holds: the library hands it on as it came.
#[verifier::external_type_specification]
#[verifier::external_body]
pub struct ExHttpError(hyper::Error);

/// What starting the HTTP listener gives.
pub type HttpResult<T> = Result<T, hyper::Error>;

/// A port of the listener.
pub type Port = u16;

/// An address of the listener.
#[derive(Clone, Copy, Debug, PartialEq, Eq, Structural)]
pub enum IpAddr {
    Ipv4Addr(u8, u8, u8, u8),
    Ipv6Addr(u16, u16, u16, u16, u16, u16, u16, u16),
}

/// How many notifications the listener keeps for a producer that has fallen behind.
pub const CHANNEL_CAPACITY: usize = 100;

/// A push to a repository, as the listener decoded it.
#[derive(Debug, PartialEq, Eq)]
pub struct PushNotification {
    /// Where the repository is cloned from.
    pub clone_url: String,
    /// The branch that was pushed to.
    pub branch: String,
}

/// An event from which a build request can be made.
pub trait ToBuildRequest<R> {
    /// The request that this event asks for. An implementation that is not verified leaves
    /// the body as it is, which says nothing.
    open spec fn request(&self) -> R {
        arbitrary()
    }

    fn to_build_request(&self) -> (r: R)
        ensures
            r == self.request(),
    ;
}

impl ToBuildRequest<BuildInsert> for PushNotification {
    open spec fn request(&self) -> BuildInsert {
        BuildInsert { clone_url: self.clone_url, branch: self.branch }
    }

    fn to_build_request(&self) -> (r: BuildInsert) {
        BuildInsert { clone_url: self.clone_url.clone(), branch: self.branch.clone() }
    }
}

impl ToBuildRequest<BuildInsert> for BuildInsert {
    open spec fn request(&self) -> BuildInsert {
        *self
    }

    fn to_build_request(&self) -> (r: BuildInsert) {
        self.clone()
    }
}

/// A source of notifications of type `A`.
pub trait NotificationSource<A>: Sized {
    /// What was delivered to the source and not yet handed out, oldest first. An
    /// implementation that is not verified leaves the body as it is, which says nothing.
    open spec fn delivered(&self) -> Seq<Option<A>> {
        arbitrary()
    }

    /// Whether `get_notification` has something to hand out. Where it has not, the
    /// caller waits for the next delivery.
    fn has_notification(&self) -> (ready: bool)
        ensures
            ready == (self.delivered().len() > 0),
    ;

    /// Hands out the oldest delivery: a notification, or `None` once the source is closed.
    fn get_notification(&mut self) -> (n: Option<A>)
        requires
            old(self).delivered().len() > 0,
        ensures
            n == old(self).delivered()[0],
            final(self).delivered() == old(self).delivered().skip(1),
    ;

    /// One step of a producer. Returns whether the producer goes on: `true` after a
    /// notification was made into a pending entry, `false` once the source is closed.
    fn notification_event_loop_step<R, B: DatabaseEntry<R>, D: Database<R, B>>(
        &mut self,
        db: &mut D,
    ) -> (r: Result<bool, QueueError>) where A: ToBuildRequest<R>
        requires
            old(self).delivered().len() > 0,
        ensures
            final(self).delivered() == old(self).delivered().skip(1),
            D::infallible() ==> r is Ok,
            match old(self).delivered()[0] {
                None => r == Ok::<bool, QueueError>(false) && final(db).backlog() == old(
                    db,
                ).backlog(),
                Some(event) => match r {
                    Ok(go_on) => go_on && final(db).backlog() == add_pending_spec(
                        old(db).backlog(),
                        event.request(),
                    ),
                    Err(e) => e == QueueError::StoreUnavailable && final(db).backlog() == old(
                        db,
                    ).backlog(),
                },
            },
    {
        match self.get_notification() {
            Some(event) => {
                match db.add_pending(event.to_build_request()) {
                    Ok(()) => Ok(true),
                    Err(e) => Err(e),
                }
            },
            None => Ok(false),
        }
    }
}

/// A listener for pushes that is set up and not yet listening.
pub struct GitHubServer {
    addr: IpAddr,
    port: Port,
    channel: NotificationChannel<PushNotification>,
}

/// A listener that is receiving pushes.
pub struct RunningServer {
    channel: NotificationChannel<PushNotification>,
}

impl GitHubServer {
    /// The address the listener is to be bound to.
    pub closed spec fn address(&self) -> IpAddr {
        self.addr
    }

    /// The port the listener is to be bound to.
    pub closed spec fn port_number(&self) -> Port {
        self.port
    }

    /// The channel between the listener and its producer.
    pub closed spec fn channel(&self) -> NotificationChannel<PushNotification> {
        self.channel
    }

    /// A listener for `addr` and `port`, with an empty channel of `CHANNEL_CAPACITY` places.
    pub fn new(addr: IpAddr, port: Port) -> (server: GitHubServer)
        ensures
            server.address() == addr,
            server.port_number() == port,
            server.channel().waiting() == Seq::<Option<PushNotification>>::empty(),
            server.channel().capacity() == CHANNEL_CAPACITY,
    {
        GitHubServer { addr, port, channel: NotificationChannel::new(CHANNEL_CAPACITY) }
    }

    pub fn addr(&self) -> (addr: IpAddr)
        ensures
            addr == self.address(),
    {
        self.addr
    }

    pub fn port(&self) -> (port: Port)
        ensures
            port == self.port_number(),
    {
        self.port
    }

    /// Turns the listener into a running one, given what binding it to its address gave:
    /// the handle of the bound listener, which is handed back with the running server, or
    /// the error, which is handed on.
    pub fn event_loop<H>(self, listening: HttpResult<H>) -> (r: HttpResult<(RunningServer, H)>)
        ensures
            match listening {
                Ok(handle) => r matches Ok((running, handed_back)) && running.channel()
                    == self.channel() && handed_back == handle,
                Err(e) => r matches Err(handed_on) && handed_on == e,
            },
    {
        match listening {
            Ok(handle) => Ok((RunningServer { channel: self.channel }, handle)),
            Err(e) => Err(e),
        }
    }
}

impl RunningServer {
    /// The channel between the listener and its producer.
    pub closed spec fn channel(&self) -> NotificationChannel<PushNotification> {
        self.channel
    }

    /// Takes in a push that the listener received. A full channel takes nothing and hands
    /// the notification back; the listener offers it again once the producer has caught up.
    pub fn receive_push_notification(&mut self, not: PushNotification) -> (r: Result<
        (),
        PushNotification,
    >)
        ensures
            final(self).channel().capacity() == old(self).channel().capacity(),
            match r {
                Ok(()) => {
                    &&& !old(self).channel().is_full()
                    &&& final(self).delivered() == old(self).delivered().push(Some(not))
                },
                Err(back) => {
                    &&& old(self).channel().is_full()
                    &&& back == not
                    &&& final(self).delivered() == old(self).delivered()
                },
            },
    {
        if self.channel.full() {
            return Err(not);
        }
        let _ = self.channel.send(Some(not));
        Ok(())
    }

    /// Closes the source: puts the close signal behind what is waiting. Returns whether
    /// there was room for it; a full channel is left as it is.
    pub fn send_finish(&mut self) -> (sent: bool)
        ensures
            final(self).channel().capacity() == old(self).channel().capacity(),
            sent == !old(self).channel().is_full(),
            final(self).delivered() == if sent {
                old(self).delivered().push(None)
            } else {
                old(self).delivered()
            },
    {
        match self.channel.send(None) {
            Ok(()) => true,
            Err(_) => false,
        }
    }
}

impl NotificationSource<PushNotification> for RunningServer {
    open spec fn delivered(&self) -> Seq<Option<PushNotification>> {
        self.channel().waiting()
    }

    fn has_notification(&self) -> (ready: bool) {
        self.channel.len() > 0
    }

    fn get_notification(&mut self) -> (n: Option<PushNotification>) {
        match self.channel.recv() {
            Some(item) => item,
            None => None,
        }
    }
}

/// A source that hands out what a test has put into its channel.
pub struct TestNotificationSource<A> {
    source: NotificationChannel<A>,
}

impl<A> TestNotificationSource<A> {
    /// The channel that the source reads from.
    pub closed spec fn source(&self) -> NotificationChannel<A> {
        self.source
    }

    /// A source that reads from `source`.
    pub fn new(source: NotificationChannel<A>) -> (made: TestNotificationSource<A>)
        ensures
            made.source() == source,
    {
        TestNotificationSource { source }
    }
}

impl<A> NotificationSource<A> for TestNotificationSource<A> {
    open spec fn delivered(&self) -> Seq<Option<A>> {
        self.source().waiting()
    }

    fn has_notification(&self) -> (ready: bool) {
        self.source.len() > 0
    }

    fn get_notification(&mut self) -> (n: Option<A>) {
        match self.source.recv() {
            Some(item) => item,
            None => None,
        }
    }
}

} // verus!
