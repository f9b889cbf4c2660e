use log_sink::route::Method;
use log_sink::sink::Sink;

const CALLERS: usize = 4;
const PER_CALLER: usize = 25;

fn request_of(caller: usize, turn: usize) -> (Method, &'static str) {
    let method = if (caller + turn) % 2 == 0 { Method::Post } else { Method::Get };
    let path = if turn % 3 == 0 { "/logs" } else { "/api/events" };
    (method, path)
}

#[test]
fn callers_served_one_after_another() {
    let mut sink = Sink::new();
    let mut caller: usize = 0;
    while caller < CALLERS {
        let mut turn: usize = 0;
        while turn < PER_CALLER {
            let (method, path) = request_of(caller, turn);
            assert_eq!(sink.handle(method, path).status, 200);
            turn += 1;
        }
        caller += 1;
    }
    assert_eq!(sink.requests_handled(), 100);
}

#[test]
fn callers_served_in_turns() {
    let mut sink = Sink::new();
    let mut turn: usize = 0;
    while turn < PER_CALLER {
        let mut caller: usize = 0;
        while caller < CALLERS {
            let (method, path) = request_of(caller, turn);
            assert_eq!(sink.handle(method, path).status, 200);
            caller += 1;
        }
        turn += 1;
    }
    assert_eq!(sink.requests_handled(), 100);
    assert_eq!(sink.health_at(None).requests_handled, 100);
}

#[test]
fn callers_served_in_uneven_bursts() {
    let mut sink = Sink::new();
    let mut next_turn: [usize; CALLERS] = [0; CALLERS];
    let mut served: usize = 0;
    let mut step: usize = 0;
    while served < CALLERS * PER_CALLER {
        let caller: usize = (step * 7 + step / 3) % CALLERS;
        let burst: usize = 1 + step % 4;
        let mut sent: usize = 0;
        while sent < burst && next_turn[caller] < PER_CALLER {
            let (method, path) = request_of(caller, next_turn[caller]);
            assert_eq!(sink.handle(method, path).status, 200);
            next_turn[caller] += 1;
            served += 1;
            sent += 1;
        }
        step += 1;
    }
    assert_eq!(sink.requests_handled(), 100);
}
