use hyper_timeout::poll::{forward, guard};
use hyper_timeout::{Direction, Error, IdleTimer, Outcome, Polled, TimeoutConnectorStream};

const SEC: u64 = 1_000_000_000;

type Read = Outcome<usize, &'static str>;

fn pending(wake_at: Option<u64>) -> Read {
    Outcome::Pending { wake_at }
}

#[test]
fn new_stream_has_no_timeouts() {
    let stream = TimeoutConnectorStream::new("channel");
    assert_eq!(stream.read_timeout(), None);
    assert_eq!(stream.write_timeout(), None);
    assert_eq!(*stream.get_ref(), "channel");
}

#[test]
fn timeouts_are_set_and_read_back_per_direction() {
    let mut stream = TimeoutConnectorStream::new(());
    stream.set_read_timeout(Some(5 * SEC));
    assert_eq!(stream.read_timeout(), Some(5 * SEC));
    assert_eq!(stream.write_timeout(), None);
    stream.set_write_timeout(Some(7 * SEC));
    assert_eq!(stream.read_timeout(), Some(5 * SEC));
    assert_eq!(stream.write_timeout(), Some(7 * SEC));
    stream.set_read_timeout(None);
    assert_eq!(stream.read_timeout(), None);
    assert_eq!(stream.write_timeout(), Some(7 * SEC));
}

#[test]
fn inner_stream_is_exposed_and_reclaimed_unchanged() {
    let mut stream = TimeoutConnectorStream::new(vec![1u8, 2, 3]);
    stream.set_read_timeout(Some(5));
    assert_eq!(stream.poll_read::<usize, &str>(0, Polled::Pending), pending(Some(5)));
    assert_eq!(stream.get_ref(), &vec![1u8, 2, 3]);
    stream.get_mut().push(4);
    assert_eq!(stream.get_ref(), &vec![1u8, 2, 3, 4]);
    // Touching the inner stream left the timer as it was.
    assert_eq!(stream.read_timeout(), Some(5));
    assert_eq!(stream.poll_read::<usize, &str>(4, Polled::Pending), pending(Some(5)));
    assert_eq!(stream.into_inner(), vec![1u8, 2, 3, 4]);
}

#[test]
fn read_without_timeout_only_waits_for_the_channel() {
    let mut stream = TimeoutConnectorStream::new(());
    assert_eq!(stream.poll_read::<usize, &str>(0, Polled::Pending), pending(None));
    assert_eq!(stream.poll_read::<usize, &str>(u64::MAX, Polled::Pending), pending(None));
    assert_eq!(stream.poll_read::<usize, &str>(u64::MAX, Polled::Ready(1)), Outcome::Ready(1));
}

#[test]
fn stalled_read_times_out_exactly_at_the_deadline() {
    let mut stream = TimeoutConnectorStream::new(());
    stream.set_read_timeout(Some(5 * SEC));
    assert_eq!(stream.poll_read::<usize, &str>(2 * SEC, Polled::Pending), pending(Some(7 * SEC)));
    assert_eq!(stream.poll_read::<usize, &str>(4 * SEC, Polled::Pending), pending(Some(7 * SEC)));
    assert_eq!(
        stream.poll_read::<usize, &str>(7 * SEC - 1, Polled::Pending),
        pending(Some(7 * SEC))
    );
    assert_eq!(
        stream.poll_read::<usize, &str>(7 * SEC, Polled::Pending),
        Outcome::Failed(Error::ReadTimeout)
    );
}

#[test]
fn stalled_write_times_out_exactly_at_the_deadline() {
    let mut stream = TimeoutConnectorStream::new(());
    stream.set_write_timeout(Some(3 * SEC));
    assert_eq!(
        stream.poll_write::<usize, &str>(SEC, Polled::Pending),
        Outcome::Pending { wake_at: Some(4 * SEC) }
    );
    assert_eq!(
        stream.poll_write::<usize, &str>(4 * SEC - 1, Polled::Pending),
        Outcome::Pending { wake_at: Some(4 * SEC) }
    );
    assert_eq!(
        stream.poll_write::<usize, &str>(4 * SEC, Polled::Pending),
        Outcome::Failed(Error::WriteTimeout)
    );
}

#[test]
fn data_resets_the_read_clock() {
    let mut stream = TimeoutConnectorStream::new(());
    stream.set_read_timeout(Some(10));
    assert_eq!(stream.poll_read::<usize, &str>(0, Polled::Pending), pending(Some(10)));
    assert_eq!(stream.poll_read::<usize, &str>(9, Polled::Ready(1)), Outcome::Ready(1));
    assert_eq!(stream.poll_read::<usize, &str>(9, Polled::Pending), pending(Some(19)));
    assert_eq!(stream.poll_read::<usize, &str>(18, Polled::Ready(1)), Outcome::Ready(1));
    assert_eq!(stream.poll_read::<usize, &str>(18, Polled::Pending), pending(Some(28)));
    assert_eq!(stream.poll_read::<usize, &str>(27, Polled::Pending), pending(Some(28)));
    assert_eq!(
        stream.poll_read::<usize, &str>(28, Polled::Pending),
        Outcome::Failed(Error::ReadTimeout)
    );
}

#[test]
fn end_of_stream_counts_as_progress() {
    let mut stream = TimeoutConnectorStream::new(());
    stream.set_read_timeout(Some(10));
    assert_eq!(stream.poll_read::<usize, &str>(0, Polled::Pending), pending(Some(10)));
    // A read of zero bytes, long after the deadline.
    assert_eq!(stream.poll_read::<usize, &str>(50, Polled::Ready(0)), Outcome::Ready(0));
    assert_eq!(stream.poll_read::<usize, &str>(50, Polled::Pending), pending(Some(60)));
}

#[test]
fn data_at_the_instant_of_the_deadline_is_delivered() {
    let mut stream = TimeoutConnectorStream::new(());
    stream.set_read_timeout(Some(10));
    assert_eq!(stream.poll_read::<usize, &str>(0, Polled::Pending), pending(Some(10)));
    assert_eq!(stream.poll_read::<usize, &str>(10, Polled::Ready(3)), Outcome::Ready(3));
}

#[test]
fn partial_write_resets_the_write_clock() {
    let mut stream = TimeoutConnectorStream::new(());
    stream.set_write_timeout(Some(10));
    assert_eq!(
        stream.poll_write::<usize, &str>(0, Polled::Pending),
        Outcome::Pending { wake_at: Some(10) }
    );
    assert_eq!(stream.poll_write::<usize, &str>(9, Polled::Ready(1)), Outcome::Ready(1));
    assert_eq!(
        stream.poll_write::<usize, &str>(15, Polled::Pending),
        Outcome::Pending { wake_at: Some(25) }
    );
    assert_eq!(
        stream.poll_write::<usize, &str>(25, Polled::Pending),
        Outcome::Failed(Error::WriteTimeout)
    );
}

#[test]
fn channel_errors_are_forwarded_unchanged() {
    let mut stream = TimeoutConnectorStream::new(());
    stream.set_read_timeout(Some(10));
    stream.set_write_timeout(Some(10));
    assert_eq!(stream.poll_read::<usize, &str>(0, Polled::Pending), pending(Some(10)));
    assert_eq!(
        stream.poll_read::<usize, &str>(99, Polled::Failed("reset")),
        Outcome::Failed(Error::ChannelError("reset"))
    );
    // The failed attempt is over: the next one starts a new deadline.
    assert_eq!(stream.poll_read::<usize, &str>(99, Polled::Pending), pending(Some(109)));
    assert_eq!(
        stream.poll_write::<usize, &str>(3, Polled::Failed("broken pipe")),
        Outcome::Failed(Error::ChannelError("broken pipe"))
    );
    assert_eq!(
        stream.poll_flush::<(), &str>(3, Polled::Failed("broken pipe")),
        Outcome::Failed(Error::ChannelError("broken pipe"))
    );
    assert_eq!(
        stream.poll_shutdown::<(), &str>(Polled::Failed("not connected")),
        Outcome::Failed(Error::ChannelError("not connected"))
    );
}

#[test]
fn zero_read_timeout_fails_the_first_stall() {
    let mut stream = TimeoutConnectorStream::new(());
    stream.set_read_timeout(Some(0));
    assert_eq!(stream.poll_read::<usize, &str>(5, Polled::Ready(2)), Outcome::Ready(2));
    assert_eq!(
        stream.poll_read::<usize, &str>(5, Polled::Pending),
        Outcome::Failed(Error::ReadTimeout)
    );
}

#[test]
fn stalled_write_does_not_touch_reads() {
    let mut stream = TimeoutConnectorStream::new(());
    stream.set_read_timeout(Some(10));
    stream.set_write_timeout(Some(4));
    assert_eq!(stream.poll_read::<usize, &str>(0, Polled::Pending), pending(Some(10)));
    assert_eq!(
        stream.poll_write::<usize, &str>(0, Polled::Pending),
        Outcome::Pending { wake_at: Some(4) }
    );
    assert_eq!(
        stream.poll_write::<usize, &str>(4, Polled::Pending),
        Outcome::Failed(Error::WriteTimeout)
    );
    // The read deadline is where it was, and reads go on succeeding.
    assert_eq!(stream.poll_read::<usize, &str>(5, Polled::Pending), pending(Some(10)));
    assert_eq!(stream.poll_read::<usize, &str>(6, Polled::Ready(8)), Outcome::Ready(8));
    assert_eq!(
        stream.poll_write::<usize, &str>(6, Polled::Pending),
        Outcome::Pending { wake_at: Some(10) }
    );
    assert_eq!(stream.poll_read::<usize, &str>(9, Polled::Ready(8)), Outcome::Ready(8));
    assert_eq!(
        stream.poll_write::<usize, &str>(10, Polled::Pending),
        Outcome::Failed(Error::WriteTimeout)
    );
    assert_eq!(stream.poll_read::<usize, &str>(10, Polled::Pending), pending(Some(20)));
}

#[test]
fn stalled_read_does_not_touch_writes() {
    let mut stream = TimeoutConnectorStream::new(());
    stream.set_read_timeout(Some(4));
    stream.set_write_timeout(Some(10));
    assert_eq!(
        stream.poll_write::<usize, &str>(0, Polled::Pending),
        Outcome::Pending { wake_at: Some(10) }
    );
    assert_eq!(stream.poll_read::<usize, &str>(1, Polled::Pending), pending(Some(5)));
    assert_eq!(
        stream.poll_read::<usize, &str>(5, Polled::Pending),
        Outcome::Failed(Error::ReadTimeout)
    );
    assert_eq!(
        stream.poll_write::<usize, &str>(9, Polled::Pending),
        Outcome::Pending { wake_at: Some(10) }
    );
    assert_eq!(stream.poll_write::<usize, &str>(9, Polled::Ready(64)), Outcome::Ready(64));
}

#[test]
fn reads_are_decided_alike_with_and_without_writes() {
    let looks: [(u64, bool); 6] =
        [(0, false), (3, false), (7, true), (7, false), (12, false), (17, false)];
    let mut alone = TimeoutConnectorStream::new(());
    alone.set_read_timeout(Some(10));
    let mut mixed = TimeoutConnectorStream::new(());
    mixed.set_read_timeout(Some(10));
    mixed.set_write_timeout(Some(1));
    let expected: [Read; 6] = [
        pending(Some(10)),
        pending(Some(10)),
        Outcome::Ready(1),
        pending(Some(17)),
        pending(Some(17)),
        Outcome::Failed(Error::ReadTimeout),
    ];
    let mut i: usize = 0;
    while i < looks.len() {
        let (now, ready) = looks[i];
        let polled = || if ready { Polled::Ready(1usize) } else { Polled::Pending };
        let _ = mixed.poll_write::<usize, &str>(now, Polled::Pending);
        let with_writes: Read = mixed.poll_read(now, polled());
        let _ = mixed.poll_flush::<(), &str>(now + 1, Polled::Pending);
        let without: Read = alone.poll_read(now, polled());
        assert_eq!(with_writes, without);
        assert_eq!(without, expected[i]);
        i += 1;
    }
}

#[test]
fn setting_no_limit_disarms_a_pending_read() {
    let mut stream = TimeoutConnectorStream::new(());
    stream.set_read_timeout(Some(10));
    assert_eq!(stream.poll_read::<usize, &str>(0, Polled::Pending), pending(Some(10)));
    stream.set_read_timeout(None);
    assert_eq!(stream.poll_read::<usize, &str>(10, Polled::Pending), pending(None));
    assert_eq!(stream.poll_read::<usize, &str>(u64::MAX, Polled::Pending), pending(None));
}

#[test]
fn setting_no_limit_disarms_a_pending_write() {
    let mut stream = TimeoutConnectorStream::new(());
    stream.set_write_timeout(Some(10));
    assert_eq!(
        stream.poll_write::<usize, &str>(0, Polled::Pending),
        Outcome::Pending { wake_at: Some(10) }
    );
    stream.set_write_timeout(None);
    assert_eq!(
        stream.poll_write::<usize, &str>(10, Polled::Pending),
        Outcome::Pending { wake_at: None }
    );
    assert_eq!(
        stream.poll_flush::<(), &str>(u64::MAX, Polled::Pending),
        Outcome::Pending { wake_at: None }
    );
}

#[test]
fn new_timeout_applies_from_the_next_attempt_of_a_pending_read() {
    let mut stream = TimeoutConnectorStream::new(());
    stream.set_read_timeout(Some(10));
    assert_eq!(stream.poll_read::<usize, &str>(0, Polled::Pending), pending(Some(10)));
    // Tightening the bound while the read is pending restarts the clock at
    // the next attempt with the new value.
    stream.set_read_timeout(Some(2));
    assert_eq!(stream.poll_read::<usize, &str>(9, Polled::Pending), pending(Some(11)));
    assert_eq!(
        stream.poll_read::<usize, &str>(11, Polled::Pending),
        Outcome::Failed(Error::ReadTimeout)
    );
}

#[test]
fn setting_one_direction_leaves_the_other_armed() {
    let mut stream = TimeoutConnectorStream::new(());
    stream.set_read_timeout(Some(10));
    stream.set_write_timeout(Some(10));
    assert_eq!(stream.poll_read::<usize, &str>(0, Polled::Pending), pending(Some(10)));
    stream.set_write_timeout(Some(1));
    assert_eq!(stream.poll_read::<usize, &str>(5, Polled::Pending), pending(Some(10)));
    assert_eq!(
        stream.poll_read::<usize, &str>(10, Polled::Pending),
        Outcome::Failed(Error::ReadTimeout)
    );
}

#[test]
fn flush_is_guarded_by_the_write_timer() {
    let mut stream = TimeoutConnectorStream::new(());
    stream.set_write_timeout(Some(10));
    assert_eq!(
        stream.poll_flush::<(), &str>(0, Polled::Pending),
        Outcome::Pending { wake_at: Some(10) }
    );
    assert_eq!(stream.poll_flush::<(), &str>(9, Polled::Ready(())), Outcome::Ready(()));
    assert_eq!(
        stream.poll_flush::<(), &str>(20, Polled::Pending),
        Outcome::Pending { wake_at: Some(30) }
    );
    assert_eq!(
        stream.poll_flush::<(), &str>(30, Polled::Pending),
        Outcome::Failed(Error::WriteTimeout)
    );
}

#[test]
fn shutdown_is_forwarded_without_a_deadline() {
    let mut stream = TimeoutConnectorStream::new(());
    stream.set_read_timeout(Some(1));
    stream.set_write_timeout(Some(1));
    assert_eq!(
        stream.poll_write::<usize, &str>(0, Polled::Pending),
        Outcome::Pending { wake_at: Some(1) }
    );
    assert_eq!(
        stream.poll_shutdown::<(), &str>(Polled::Pending),
        Outcome::Pending { wake_at: None }
    );
    assert_eq!(stream.poll_shutdown::<(), &str>(Polled::Ready(())), Outcome::Ready(()));
    // Shutdown left the write timer alone.
    assert_eq!(
        stream.poll_write::<usize, &str>(0, Polled::Pending),
        Outcome::Pending { wake_at: Some(1) }
    );
}

#[test]
fn connection_metadata_is_the_inner_channel_s() {
    struct Channel {
        proxied: bool,
        protocol: &'static str,
    }
    let mut stream = TimeoutConnectorStream::new(Channel { proxied: true, protocol: "h2" });
    assert!(stream.connected(|inner| inner.proxied));
    assert_eq!(stream.connected(|inner| inner.protocol), "h2");
    stream.set_read_timeout(Some(1));
    let _ = stream.poll_read::<usize, &str>(0, Polled::Pending);
    let _ = stream.poll_read::<usize, &str>(1, Polled::Pending);
    assert_eq!(
        stream.connected(|inner| (inner.proxied, inner.protocol)),
        (stream.get_ref().proxied, stream.get_ref().protocol)
    );
    stream.get_mut().proxied = false;
    assert!(!stream.connected(|inner| inner.proxied));
}

#[test]
fn guard_decides_for_any_timer() {
    let mut timer = IdleTimer::new();
    timer.set_timeout(Some(10));
    let first: Outcome<u8, &str> = guard(&mut timer, 0, Polled::Pending, Error::WriteTimeout);
    assert_eq!(first, Outcome::Pending { wake_at: Some(10) });
    let second: Outcome<u8, &str> = guard(&mut timer, 10, Polled::Pending, Error::WriteTimeout);
    assert_eq!(second, Outcome::Failed(Error::WriteTimeout));
    let third: Outcome<u8, &str> = guard(&mut timer, 11, Polled::Ready(9), Error::WriteTimeout);
    assert_eq!(third, Outcome::Ready(9));
    assert!(!timer.is_armed());
}

#[test]
fn forward_maps_each_answer() {
    assert_eq!(forward::<u8, &str>(Polled::Pending), Outcome::Pending { wake_at: None });
    assert_eq!(forward::<u8, &str>(Polled::Ready(1)), Outcome::Ready(1));
    assert_eq!(forward::<u8, &str>(Polled::Failed("x")), Outcome::Failed(Error::ChannelError("x")));
}

#[test]
fn polled_progress() {
    assert!(!Polled::<u8, u8>::Pending.is_progress());
    assert!(Polled::<u8, u8>::Ready(0).is_progress());
    assert!(Polled::<u8, u8>::Failed(0).is_progress());
}

#[test]
fn each_direction_has_its_own_timeout_error() {
    assert_eq!(Direction::Read.on_timeout::<u8>(), Error::ReadTimeout);
    assert_eq!(Direction::Write.on_timeout::<u8>(), Error::WriteTimeout);
}

#[test]
fn poll_decides_either_direction() {
    let mut stream = TimeoutConnectorStream::new(());
    stream.set_read_timeout(Some(10));
    stream.set_write_timeout(Some(20));
    assert_eq!(stream.poll::<usize, &str>(Direction::Read, 1, Polled::Pending), pending(Some(11)));
    assert_eq!(stream.poll::<usize, &str>(Direction::Write, 2, Polled::Pending), pending(Some(22)));
    assert_eq!(
        stream.poll::<usize, &str>(Direction::Read, 11, Polled::Pending),
        Outcome::Failed(Error::ReadTimeout)
    );
    assert_eq!(stream.poll::<usize, &str>(Direction::Write, 21, Polled::Pending), pending(Some(22)));
    assert_eq!(
        stream.poll::<usize, &str>(Direction::Write, 22, Polled::Pending),
        Outcome::Failed(Error::WriteTimeout)
    );
    assert_eq!(stream.poll::<usize, &str>(Direction::Write, 23, Polled::Ready(5)), Outcome::Ready(5));
}
