use bootstrap::block::{Checkpoint, HeaderHash};
use bootstrap::discovery::{peers_from_trusted_peer, Discovery, DiscoveryAction, DiscoveryEvent, Peer};
use bootstrap::error::{Cause, Error};
use bootstrap::merger::Signal;
use bootstrap::orchestrator::{bootstrap_from_peer, Setup, SetupAction, SetupEvent};

fn cause(text: &str) -> Cause {
    Cause { message: text.to_string() }
}

fn checkpoints() -> Vec<Checkpoint> {
    vec![
        Checkpoint { hash: HeaderHash { bytes: [9; 32] }, position: 40 },
        Checkpoint { hash: HeaderHash { bytes: [8; 32] }, position: 32 },
        Checkpoint { hash: HeaderHash { bytes: [0; 32] }, position: 0 },
    ]
}

/// A setup in which the pull was requested and not yet answered.
fn requesting() -> Setup {
    let mut setup = Setup::new();
    assert_eq!(bootstrap_from_peer(&mut setup, SetupEvent::Connected(Ok(()))), Ok(SetupAction::Prepare));
    assert_eq!(bootstrap_from_peer(&mut setup, SetupEvent::Ready(Ok(()))), Ok(SetupAction::Wait));
    assert_eq!(
        bootstrap_from_peer(&mut setup, SetupEvent::Checkpoints(Ok(checkpoints()))),
        Ok(SetupAction::RequestPull(checkpoints()))
    );
    assert_eq!(setup, Setup::Requesting);
    setup
}

#[test]
fn setup_leads_to_the_stream() {
    let mut setup = requesting();
    assert_eq!(bootstrap_from_peer(&mut setup, SetupEvent::PullRequested(Ok(()))), Ok(SetupAction::Stream));
    assert_eq!(setup, Setup::Streaming);
}

#[test]
fn pull_is_requested_once_both_preparations_are_done_in_either_order() {
    let mut setup = Setup::new();
    assert_eq!(setup, Setup::Connecting);
    assert_eq!(bootstrap_from_peer(&mut setup, SetupEvent::Connected(Ok(()))), Ok(SetupAction::Prepare));
    assert_eq!(setup, Setup::Preparing { ready: false, checkpoints: None });
    assert_eq!(
        bootstrap_from_peer(&mut setup, SetupEvent::Checkpoints(Ok(checkpoints()))),
        Ok(SetupAction::Wait)
    );
    assert_eq!(setup, Setup::Preparing { ready: false, checkpoints: Some(checkpoints()) });
    assert_eq!(
        bootstrap_from_peer(&mut setup, SetupEvent::Ready(Ok(()))),
        Ok(SetupAction::RequestPull(checkpoints()))
    );
    assert_eq!(setup, Setup::Requesting);
}

#[test]
fn failure_to_connect_ends_the_setup() {
    let mut setup = Setup::new();
    assert_eq!(
        bootstrap_from_peer(&mut setup, SetupEvent::Connected(Err(cause("refused")))),
        Ok(SetupAction::Fail(Error::Connect(cause("refused"))))
    );
    assert_eq!(setup, Setup::Failed);
}

#[test]
fn session_that_breaks_ends_the_setup_at_once() {
    let mut setup = Setup::new();
    bootstrap_from_peer(&mut setup, SetupEvent::Connected(Ok(()))).unwrap();
    assert_eq!(
        bootstrap_from_peer(&mut setup, SetupEvent::Ready(Err(cause("broken")))),
        Ok(SetupAction::Fail(Error::ClientNotReady(cause("broken"))))
    );
    assert_eq!(setup, Setup::Failed);

    let mut setup = Setup::new();
    bootstrap_from_peer(&mut setup, SetupEvent::Connected(Ok(()))).unwrap();
    bootstrap_from_peer(&mut setup, SetupEvent::Checkpoints(Ok(checkpoints()))).unwrap();
    assert_eq!(
        bootstrap_from_peer(&mut setup, SetupEvent::Ready(Err(cause("broken")))),
        Ok(SetupAction::Fail(Error::ClientNotReady(cause("broken"))))
    );
}

#[test]
fn failure_to_read_checkpoints_ends_the_setup() {
    let mut setup = Setup::new();
    bootstrap_from_peer(&mut setup, SetupEvent::Connected(Ok(()))).unwrap();
    bootstrap_from_peer(&mut setup, SetupEvent::Ready(Ok(()))).unwrap();
    assert_eq!(
        bootstrap_from_peer(&mut setup, SetupEvent::Checkpoints(Err(cause("storage")))),
        Ok(SetupAction::Fail(Error::GetCheckpointsFailed(cause("storage"))))
    );
    assert_eq!(setup, Setup::Failed);
}

#[test]
fn refused_pull_ends_the_setup() {
    let mut setup = requesting();
    assert_eq!(
        bootstrap_from_peer(&mut setup, SetupEvent::PullRequested(Err(cause("busy")))),
        Ok(SetupAction::Fail(Error::PullRequestFailed(cause("busy"))))
    );
    assert_eq!(setup, Setup::Failed);
}

#[test]
fn cancellation_while_the_pull_request_is_pending_interrupts_the_run() {
    let mut setup = requesting();
    assert_eq!(
        bootstrap_from_peer(&mut setup, SetupEvent::Stopper(Signal::Fired)),
        Ok(SetupAction::Fail(Error::Interrupted))
    );
    assert_eq!(setup, Setup::Failed);
    // the stream is never started: the answer to the request comes too late
    assert_eq!(
        bootstrap_from_peer(&mut setup, SetupEvent::PullRequested(Ok(()))),
        Err(SetupEvent::PullRequested(Ok(())))
    );
    assert_eq!(setup, Setup::Failed);
}

#[test]
fn cancellation_interrupts_the_setup_wherever_it_stands() {
    let mut connecting = Setup::new();
    assert_eq!(
        bootstrap_from_peer(&mut connecting, SetupEvent::Stopper(Signal::Fired)),
        Ok(SetupAction::Fail(Error::Interrupted))
    );
    assert_eq!(connecting, Setup::Failed);

    let mut preparing = Setup::new();
    bootstrap_from_peer(&mut preparing, SetupEvent::Connected(Ok(()))).unwrap();
    bootstrap_from_peer(&mut preparing, SetupEvent::Checkpoints(Ok(checkpoints()))).unwrap();
    assert_eq!(
        bootstrap_from_peer(&mut preparing, SetupEvent::Stopper(Signal::Fired)),
        Ok(SetupAction::Fail(Error::Interrupted))
    );
    assert_eq!(preparing, Setup::Failed);
}

#[test]
fn pending_signal_leaves_the_setup_waiting() {
    let mut setup = Setup::new();
    assert_eq!(bootstrap_from_peer(&mut setup, SetupEvent::Stopper(Signal::Pending)), Ok(SetupAction::Wait));
    assert_eq!(setup, Setup::Connecting);
    bootstrap_from_peer(&mut setup, SetupEvent::Connected(Ok(()))).unwrap();
    bootstrap_from_peer(&mut setup, SetupEvent::Ready(Ok(()))).unwrap();
    assert_eq!(bootstrap_from_peer(&mut setup, SetupEvent::Stopper(Signal::Pending)), Ok(SetupAction::Wait));
    assert_eq!(setup, Setup::Preparing { ready: true, checkpoints: None });
    let mut setup = requesting();
    assert_eq!(bootstrap_from_peer(&mut setup, SetupEvent::Stopper(Signal::Pending)), Ok(SetupAction::Wait));
    assert_eq!(setup, Setup::Requesting);
}

#[test]
fn lost_signal_aborts_and_is_not_an_interruption() {
    let mut setup = requesting();
    assert_eq!(bootstrap_from_peer(&mut setup, SetupEvent::Stopper(Signal::Lost)), Ok(SetupAction::Abort));
    assert_eq!(setup, Setup::Failed);
    let mut setup = Setup::new();
    assert_eq!(bootstrap_from_peer(&mut setup, SetupEvent::Stopper(Signal::Lost)), Ok(SetupAction::Abort));
}

#[test]
fn setup_hands_back_what_it_is_not_waiting_for() {
    let mut setup = Setup::new();
    assert_eq!(
        bootstrap_from_peer(&mut setup, SetupEvent::Ready(Ok(()))),
        Err(SetupEvent::Ready(Ok(())))
    );
    assert_eq!(
        bootstrap_from_peer(&mut setup, SetupEvent::PullRequested(Ok(()))),
        Err(SetupEvent::PullRequested(Ok(())))
    );
    assert_eq!(setup, Setup::Connecting);

    bootstrap_from_peer(&mut setup, SetupEvent::Connected(Ok(()))).unwrap();
    assert_eq!(
        bootstrap_from_peer(&mut setup, SetupEvent::Connected(Ok(()))),
        Err(SetupEvent::Connected(Ok(())))
    );
    bootstrap_from_peer(&mut setup, SetupEvent::Ready(Ok(()))).unwrap();
    assert_eq!(
        bootstrap_from_peer(&mut setup, SetupEvent::Ready(Ok(()))),
        Err(SetupEvent::Ready(Ok(())))
    );
    assert_eq!(setup, Setup::Preparing { ready: true, checkpoints: None });

    let mut setup = Setup::new();
    bootstrap_from_peer(&mut setup, SetupEvent::Connected(Ok(()))).unwrap();
    bootstrap_from_peer(&mut setup, SetupEvent::Checkpoints(Ok(checkpoints()))).unwrap();
    assert_eq!(
        bootstrap_from_peer(&mut setup, SetupEvent::Checkpoints(Ok(Vec::new()))),
        Err(SetupEvent::Checkpoints(Ok(Vec::new())))
    );
    assert_eq!(setup, Setup::Preparing { ready: false, checkpoints: Some(checkpoints()) });
}

#[test]
fn finished_setup_takes_no_event() {
    let mut setup = requesting();
    bootstrap_from_peer(&mut setup, SetupEvent::PullRequested(Ok(()))).unwrap();
    assert_eq!(
        bootstrap_from_peer(&mut setup, SetupEvent::Stopper(Signal::Fired)),
        Err(SetupEvent::Stopper(Signal::Fired))
    );
    assert_eq!(
        bootstrap_from_peer(&mut setup, SetupEvent::Connected(Ok(()))),
        Err(SetupEvent::Connected(Ok(())))
    );
    assert_eq!(setup, Setup::Streaming);
}

#[test]
fn discovery_describes_each_peer_in_order() {
    let mut state = Discovery::Connecting;
    let connected: DiscoveryEvent<u32> = DiscoveryEvent::Connected(Ok(()));
    assert_eq!(peers_from_trusted_peer(&mut state, connected), Ok(DiscoveryAction::AwaitReady));
    assert_eq!(state, Discovery::Readying);
    let ready: DiscoveryEvent<u32> = DiscoveryEvent::Ready(Ok(()));
    assert_eq!(peers_from_trusted_peer(&mut state, ready), Ok(DiscoveryAction::RequestPeers));
    assert_eq!(state, Discovery::Listing);
    let listed = DiscoveryEvent::Peers(Ok(vec![30u32, 10, 20, 10]));
    assert_eq!(
        peers_from_trusted_peer(&mut state, listed),
        Ok(DiscoveryAction::Finish(Ok(vec![
            Peer::new(30),
            Peer::new(10),
            Peer::new(20),
            Peer::new(10)
        ])))
    );
    assert_eq!(state, Discovery::Done);
}

#[test]
fn discovery_of_a_peer_that_knows_none_gives_an_empty_list() {
    let mut state = Discovery::Listing;
    let listed: DiscoveryEvent<String> = DiscoveryEvent::Peers(Ok(Vec::new()));
    assert_eq!(
        peers_from_trusted_peer(&mut state, listed),
        Ok(DiscoveryAction::Finish(Ok(Vec::new())))
    );
}

#[test]
fn discovery_fails_with_the_error_of_its_stage() {
    let mut state = Discovery::Connecting;
    let event: DiscoveryEvent<u32> = DiscoveryEvent::Connected(Err(cause("refused")));
    assert_eq!(
        peers_from_trusted_peer(&mut state, event),
        Ok(DiscoveryAction::Finish(Err(Error::Connect(cause("refused")))))
    );
    assert_eq!(state, Discovery::Done);

    let mut state = Discovery::Readying;
    let event: DiscoveryEvent<u32> = DiscoveryEvent::Ready(Err(cause("broken")));
    assert_eq!(
        peers_from_trusted_peer(&mut state, event),
        Ok(DiscoveryAction::Finish(Err(Error::ClientNotReady(cause("broken")))))
    );
    assert_eq!(state, Discovery::Done);

    let mut state = Discovery::Listing;
    let event: DiscoveryEvent<u32> = DiscoveryEvent::Peers(Err(cause("not supported")));
    assert_eq!(
        peers_from_trusted_peer(&mut state, event),
        Ok(DiscoveryAction::Finish(Err(Error::PeersNotAvailable(cause("not supported")))))
    );
    assert_eq!(state, Discovery::Done);
}

#[test]
fn discovery_hands_back_what_it_is_not_waiting_for() {
    let mut state = Discovery::Connecting;
    let listed = DiscoveryEvent::Peers(Ok(vec![1u32]));
    assert_eq!(peers_from_trusted_peer(&mut state, listed), Err(DiscoveryEvent::Peers(Ok(vec![1]))));
    let ready: DiscoveryEvent<u32> = DiscoveryEvent::Ready(Ok(()));
    assert_eq!(peers_from_trusted_peer(&mut state, ready), Err(DiscoveryEvent::Ready(Ok(()))));
    assert_eq!(state, Discovery::Connecting);

    let mut state = Discovery::Done;
    let connected: DiscoveryEvent<u32> = DiscoveryEvent::Connected(Ok(()));
    assert_eq!(peers_from_trusted_peer(&mut state, connected), Err(DiscoveryEvent::Connected(Ok(()))));
    let listed = DiscoveryEvent::Peers(Ok(vec![1u32]));
    assert_eq!(peers_from_trusted_peer(&mut state, listed), Err(DiscoveryEvent::Peers(Ok(vec![1]))));
    assert_eq!(state, Discovery::Done);
}
