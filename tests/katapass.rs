use katapass::broker::{Action, Broker, Event};
use katapass::bytes::{split_bytes, starts_with};
use katapass::channel::{recv_engine_response, send_engine_response};
use katapass::color::{opposite, parse_color, Color};
use katapass::command::{body_of, pass_command, plan_intercept};
use katapass::fault::Fault;
use katapass::framer::{frame_all, Framer};
use katapass::winrate::{value_on_line, winrate_tokens};

fn b(s: &str) -> Vec<u8> {
    s.as_bytes().to_vec()
}

fn max_winrate(tokens: &[Vec<u8>]) -> f64 {
    let mut best: f64 = 0.0;
    for t in tokens {
        let w: f64 = std::str::from_utf8(t).unwrap().parse().unwrap();
        if w > best {
            best = w;
        }
    }
    best
}

#[test]
fn framer_emits_on_blank_line() {
    let mut f = Framer::new();
    let mut out = Vec::new();
    for &x in b"= D4\n\n".iter() {
        if let Some(r) = f.push(x) {
            out.push(r);
        }
    }
    assert_eq!(out, vec![b("= D4\n\n")]);
}

#[test]
fn framer_accepts_empty_success_response() {
    assert_eq!(frame_all(b"=\n\n"), vec![b("=\n\n")]);
}

#[test]
fn framer_splits_consecutive_responses() {
    let stream = b("= ok\n\n=\n\n= line one\nline two\n\npartial");
    assert_eq!(
        frame_all(&stream),
        vec![b("= ok\n\n"), b("=\n\n"), b("= line one\nline two\n\n")]
    );
}

#[test]
fn framer_keeps_single_line_breaks_inside() {
    assert_eq!(frame_all(b"= ab\ncd\n"), Vec::<Vec<u8>>::new());
    assert_eq!(frame_all(b"= a\nb\n"), vec![b("= a\nb\n")]);
    assert_eq!(frame_all(b""), Vec::<Vec<u8>>::new());
}

#[test]
fn framer_carriage_return_blank_line() {
    assert_eq!(frame_all(b"=\n\r\n"), vec![b("=\n\r\n")]);
}

#[test]
fn opposite_is_an_involution() {
    for c in [Color::Black, Color::White] {
        assert_eq!(opposite(opposite(c)), c);
    }
    assert_eq!(opposite(Color::Black), Color::White);
}

#[test]
fn colors_parse_exactly() {
    assert_eq!(parse_color(b"B"), Some(Color::Black));
    assert_eq!(parse_color(b"W"), Some(Color::White));
    assert_eq!(parse_color(b"b"), None);
    assert_eq!(parse_color(b"B\n"), None);
    assert_eq!(parse_color(b""), None);
}

#[test]
fn winrate_tokens_in_line_order() {
    let resp = b("= D4\ninfo move D4 winrate 0.12 visits 3\ninfo move Q16 winrate 0.77\ninfo winrate 0.45\n\n");
    let tokens = winrate_tokens(&resp);
    assert_eq!(tokens, vec![b("0.12"), b("0.77"), b("0.45")]);
    assert_eq!(max_winrate(&tokens), 0.77);
}

#[test]
fn winrate_tokens_absent() {
    let tokens = winrate_tokens(b"= D4\n\n");
    assert!(tokens.is_empty());
    assert_eq!(max_winrate(&tokens), 0.0);
}

#[test]
fn winrate_every_marker_counts() {
    assert_eq!(value_on_line(b"winrate 0.3 winrate 0.9"), vec![b("0.3"), b("0.9")]);
    assert_eq!(value_on_line(b"x winrate"), Vec::<Vec<u8>>::new());
    assert_eq!(value_on_line(b"winrate 0.6\r"), vec![b("0.6")]);
    assert_eq!(value_on_line(b"winrate winrate 0.1"), vec![b("winrate"), b("0.1")]);
    assert_eq!(winrate_tokens(b"a winrate 0.2 b\r\nwinrate 0.4\n"), vec![b("0.2"), b("0.4")]);
}

#[test]
fn winrate_several_markers_on_one_line() {
    let resp = b("info move D4 winrate 0.12 move Q16 winrate 0.77 move C3 winrate 0.45\n");
    let tokens = winrate_tokens(&resp);
    assert_eq!(tokens, vec![b("0.12"), b("0.77"), b("0.45")]);
    assert_eq!(max_winrate(&tokens), 0.77);
}

#[test]
fn winrate_bad_token_after_later_marker_is_handed_out() {
    let tokens = winrate_tokens(b"winrate 0.5 winrate abc\n");
    assert_eq!(tokens, vec![b("0.5"), b("abc")]);
    assert!(std::str::from_utf8(&tokens[1]).unwrap().parse::<f64>().is_err());
}

#[test]
fn plan_builds_probe_and_pass_command() {
    let plan = plan_intercept(b"genmove B\n").unwrap();
    assert_eq!(plan.color, Color::Black);
    assert_eq!(plan.probe, b("genmove W\n"));
    assert_eq!(plan.pass_command, b("play B pass\n"));
    let plan = plan_intercept(b"12 genmove W extra\r\n").unwrap_err();
    assert_eq!(plan, Fault::UnknownColor);
    let plan = plan_intercept(b"genmove W extra\r\n").unwrap();
    assert_eq!(plan.probe, b("genmove B extra\n"));
}

#[test]
fn plan_rejects_missing_color() {
    assert_eq!(plan_intercept(b"genmove\n").err(), Some(Fault::MissingColor));
    assert_eq!(plan_intercept(b"genmove X\n").err(), Some(Fault::UnknownColor));
}

#[test]
fn pass_command_text() {
    assert_eq!(pass_command(Color::White), b("play W pass\n"));
}

#[test]
fn line_body_strips_line_break() {
    assert_eq!(body_of(b"genmove B\r\n"), b("genmove B"));
    assert_eq!(body_of(b"genmove B"), b("genmove B"));
    assert_eq!(body_of(b"\n"), b(""));
}

#[test]
fn bytes_helpers() {
    assert!(starts_with(b"genmove B\n", b"genmove"));
    assert!(!starts_with(b"gen", b"genmove"));
    assert_eq!(split_bytes(b"a  b", b' '), vec![b("a"), b(""), b("b")]);
    assert_eq!(split_bytes(b"", b' '), vec![b("")]);
}

#[test]
fn plain_line_passes_through() {
    let mut broker = Broker::new(b("genmove"));
    let acts = broker.step(Event::Line(b("boardsize 19\n"))).unwrap();
    assert_eq!(acts, vec![Action::ToEngine(b("boardsize 19\n"))]);
    assert!(!broker.is_idle());
    let acts = broker.step(Event::Response(b("=\n\n"))).unwrap();
    assert_eq!(acts, vec![Action::ToController(b("=\n\n"))]);
    assert!(broker.is_idle());
}

fn run_intercept(winrate: &str) -> (Vec<Action>, Vec<Action>, bool) {
    let mut broker = Broker::new(b("genmove"));
    let acts = broker.step(Event::Line(b("genmove B\n"))).unwrap();
    assert_eq!(
        acts,
        vec![
            Action::ToDiagnostic(b("KataPass is considering passing...\n")),
            Action::ToEngine(b("genmove W\n")),
        ]
    );
    let probe_reply = format!("= Q16\ninfo move Q16 winrate {}\n\n", winrate);
    let acts = broker.step(Event::Response(b(&probe_reply))).unwrap();
    let tokens = match &acts[..] {
        [Action::Judge(t)] => t.clone(),
        other => panic!("unexpected actions {:?}", other),
    };
    let pass = 1.0 - max_winrate(&tokens) >= 0.5;
    let acts = broker.step(Event::Verdict(pass)).unwrap();
    assert_eq!(acts, vec![Action::ToEngine(b("undo\n"))]);
    let after_undo = broker.step(Event::Response(b("=\n\n"))).unwrap();
    let relay = broker.step(Event::Response(b("= D4\n\n"))).unwrap();
    assert!(broker.is_idle());
    (after_undo, relay, pass)
}

#[test]
fn intercept_plays_when_opponent_strong() {
    let (after_undo, relay, pass) = run_intercept("0.85");
    assert!(!pass);
    assert_eq!(
        after_undo,
        vec![
            Action::ToDiagnostic(b("KataPass has decided to play.\n")),
            Action::ToEngine(b("genmove B\n")),
        ]
    );
    assert_eq!(relay, vec![Action::ToController(b("= D4\n\n"))]);
}

#[test]
fn intercept_passes_when_opponent_weak() {
    let (after_undo, relay, pass) = run_intercept("0.10");
    assert!(pass);
    assert_eq!(
        after_undo,
        vec![
            Action::ToDiagnostic(b("KataPass has decided to pass.\n")),
            Action::ToController(b("=\nplay pass\n\n")),
            Action::ToEngine(b("play B pass\n")),
        ]
    );
    assert_eq!(relay, vec![Action::ToController(b("= D4\n\n"))]);
}

#[test]
fn missing_color_is_a_fault() {
    let mut broker = Broker::new(b("genmove"));
    assert_eq!(broker.step(Event::Line(b("genmove\n"))).err(), Some(Fault::MissingColor));
    assert!(broker.is_idle());
    assert_eq!(broker.step(Event::Line(b("genmove Z\n"))).err(), Some(Fault::UnknownColor));
}

#[test]
fn unexpected_event_is_a_fault() {
    let mut broker = Broker::new(b("genmove"));
    assert_eq!(broker.step(Event::Response(b("=\n\n"))).err(), Some(Fault::OutOfOrder));
    assert_eq!(broker.step(Event::Verdict(true)).err(), Some(Fault::OutOfOrder));
    assert!(broker.is_idle());
}

#[test]
fn channel_keeps_order() {
    let (tx, rx) = std::sync::mpsc::channel();
    send_engine_response(&tx, b("=\n\n")).unwrap();
    send_engine_response(&tx, b("= D4\n\n")).unwrap();
    assert_eq!(recv_engine_response(&rx), Ok(b("=\n\n")));
    assert_eq!(recv_engine_response(&rx), Ok(b("= D4\n\n")));
    drop(tx);
    assert_eq!(recv_engine_response(&rx), Err(Fault::ChannelClosed));
}

#[test]
fn channel_send_fails_without_receiver() {
    let (tx, rx) = std::sync::mpsc::channel::<Vec<u8>>();
    drop(rx);
    assert_eq!(send_engine_response(&tx, b("=\n\n")), Err(Fault::ChannelClosed));
}
