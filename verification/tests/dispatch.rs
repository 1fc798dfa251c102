use nannou_osc::rosc::OscPacket;
use nannou_osc::{Bundle, Message, Packet, Time, Type};
use scoreboard::clock::TimeSpan;
use scoreboard::codec::{Argument, InboundMessage};
use scoreboard::dispatch::{amount, decode_batch, dispatch, route, update};
use scoreboard::engine::{Intent, MatchState, Phase, Side};

fn inbound(address: &str, args: Vec<Argument>) -> InboundMessage {
    InboundMessage { address: address.to_string(), args }
}

fn score_message(address: &str, value: i32) -> InboundMessage {
    inbound(address, vec![Argument::Int(value)])
}

fn wire(addr: &str, args: Vec<Type>) -> Vec<u8> {
    nannou_osc::encode(Packet::Message(Message { addr: addr.to_string(), args })).unwrap()
}

fn running_with(red: i32, blue: i32) -> MatchState {
    let mut state = MatchState::new();
    state.apply(Intent::TogglePause);
    state.apply(Intent::AddScore(Side::Red, red));
    state.apply(Intent::AddScore(Side::Blue, blue));
    state
}

fn no_addresses() -> Vec<String> {
    Vec::new()
}

#[test]
fn amount_is_the_first_argument_if_an_integer() {
    assert_eq!(amount(&vec![Argument::Int(7)]), 7);
    assert_eq!(amount(&vec![Argument::Int(-2), Argument::Int(5)]), -2);
    assert_eq!(amount(&vec![]), 0);
    assert_eq!(amount(&vec![Argument::Text("7".to_string())]), 0);
    assert_eq!(amount(&vec![Argument::Real(0x40e0_0000)]), 0);
    assert_eq!(amount(&vec![Argument::Other, Argument::Int(7)]), 0);
}

#[test]
fn route_knows_the_six_addresses() {
    assert_eq!(route(&score_message("/red/add", 3)), Some(Intent::AddScore(Side::Red, 3)));
    assert_eq!(route(&score_message("/red/sub", 4)), Some(Intent::SubScore(Side::Red, 4)));
    assert_eq!(route(&score_message("/blue/add", 5)), Some(Intent::AddScore(Side::Blue, 5)));
    assert_eq!(route(&score_message("/blue/sub", 6)), Some(Intent::SubScore(Side::Blue, 6)));
    assert_eq!(route(&inbound("/reset", vec![])), Some(Intent::Reset));
    assert_eq!(route(&inbound("/pause", vec![])), Some(Intent::TogglePause));
}

#[test]
fn route_ignores_arguments_of_reset_and_pause() {
    assert_eq!(route(&score_message("/reset", 9)), Some(Intent::Reset));
    assert_eq!(route(&score_message("/pause", 9)), Some(Intent::TogglePause));
}

#[test]
fn route_takes_a_missing_or_other_argument_as_zero() {
    assert_eq!(route(&inbound("/red/add", vec![])), Some(Intent::AddScore(Side::Red, 0)));
    assert_eq!(
        route(&inbound("/blue/sub", vec![Argument::Text("five".to_string())])),
        Some(Intent::SubScore(Side::Blue, 0))
    );
    assert_eq!(
        route(&inbound("/blue/add", vec![Argument::Real(0x4000_0000)])),
        Some(Intent::AddScore(Side::Blue, 0))
    );
}

#[test]
fn route_does_not_know_other_addresses() {
    assert_eq!(route(&score_message("/green/add", 1)), None);
    assert_eq!(route(&score_message("/red/add/", 1)), None);
    assert_eq!(route(&score_message("/red/ad", 1)), None);
    assert_eq!(route(&score_message("/RED/ADD", 1)), None);
    assert_eq!(route(&score_message("red/add", 1)), None);
    assert_eq!(route(&score_message("", 1)), None);
    assert_eq!(route(&score_message("/r\u{e9}set", 1)), None);
}

#[test]
fn scenario_red_add_that_would_pass_the_limit() {
    let mut state = running_with(5, 0);
    let unknown = dispatch(&mut state, &vec![score_message("/red/add", 7)]);
    assert_eq!(unknown, no_addresses());
    assert_eq!(state.score(Side::Red), 5);
    assert_eq!(state.phase(), Phase::Running);
}

#[test]
fn scenario_blue_sub_below_zero() {
    let mut state = running_with(0, 3);
    let unknown = dispatch(&mut state, &vec![score_message("/blue/sub", 5)]);
    assert_eq!(unknown, no_addresses());
    assert_eq!(state.score(Side::Blue), 3);
    assert_eq!(state.phase(), Phase::Running);
}

#[test]
fn dispatch_adds_and_subtracts() {
    let mut state = running_with(5, 3);
    let unknown = dispatch(
        &mut state,
        &vec![
            score_message("/red/add", 4),
            score_message("/blue/sub", 2),
            score_message("/blue/add", 16 + 3),
            score_message("/red/sub", -15),
        ],
    );
    assert_eq!(unknown, no_addresses());
    assert_eq!(state.score(Side::Red), 8);
    assert_eq!(state.score(Side::Blue), 4);
}

#[test]
fn dispatch_keeps_the_order_of_the_messages() {
    let mut state = running_with(6, 2);
    dispatch(&mut state, &vec![inbound("/reset", vec![]), score_message("/red/add", 3)]);
    assert_eq!(state.phase(), Phase::Reset);
    assert_eq!(state.score(Side::Red), 3);
    assert_eq!(state.score(Side::Blue), 0);

    let mut state = running_with(6, 2);
    dispatch(&mut state, &vec![score_message("/red/add", 3), inbound("/reset", vec![])]);
    assert_eq!(state.phase(), Phase::Reset);
    assert_eq!(state.score(Side::Red), 0);
    assert_eq!(state.score(Side::Blue), 0);
}

#[test]
fn dispatch_of_pause_follows_the_table() {
    let mut state = MatchState::new();
    dispatch(&mut state, &vec![inbound("/pause", vec![])]);
    assert_eq!(state.phase(), Phase::Running);
    dispatch(&mut state, &vec![inbound("/pause", vec![]), inbound("/pause", vec![])]);
    assert_eq!(state.phase(), Phase::Running);
    dispatch(&mut state, &vec![inbound("/pause", vec![])]);
    assert_eq!(state.phase(), Phase::Pause);
}

#[test]
fn dispatch_reports_unknown_addresses_and_goes_on() {
    let mut state = running_with(1, 1);
    let unknown = dispatch(
        &mut state,
        &vec![
            score_message("/green/add", 5),
            score_message("/red/add", 2),
            inbound("/stop", vec![]),
            score_message("/blue/add", 3),
            score_message("/green/add", 1),
        ],
    );
    assert_eq!(
        unknown,
        vec!["/green/add".to_string(), "/stop".to_string(), "/green/add".to_string()]
    );
    assert_eq!(state.score(Side::Red), 3);
    assert_eq!(state.score(Side::Blue), 4);
}

#[test]
fn dispatch_of_a_score_message_without_an_integer_changes_nothing() {
    let mut state = running_with(4, 4);
    let unknown = dispatch(
        &mut state,
        &vec![
            inbound("/red/add", vec![]),
            inbound("/red/sub", vec![Argument::Text("2".to_string())]),
            inbound("/blue/add", vec![Argument::Real(0x4000_0000)]),
            inbound("/blue/sub", vec![Argument::Other, Argument::Int(3)]),
        ],
    );
    assert_eq!(unknown, no_addresses());
    assert_eq!(state.score(Side::Red), 4);
    assert_eq!(state.score(Side::Blue), 4);
}

#[test]
fn dispatch_of_nothing_changes_nothing() {
    let mut state = running_with(2, 7);
    let unknown = dispatch(&mut state, &vec![]);
    assert_eq!(unknown, no_addresses());
    assert_eq!(state, running_with(2, 7));
}

#[test]
fn decode_batch_joins_the_packets_in_order() {
    let bundle = Packet::Bundle(Bundle {
        timetag: Time { seconds: 0, fractional: 1 },
        content: vec![
            OscPacket::Message(Message { addr: "/b".to_string(), args: vec![Type::Int(2)] }),
            OscPacket::Message(Message { addr: "/c".to_string(), args: vec![] }),
        ],
    });
    let packets = vec![
        wire("/a", vec![Type::Int(1)]),
        b"garbage".to_vec(),
        nannou_osc::encode(bundle).unwrap(),
        wire("/d", vec![Type::Int(4)]),
    ];
    assert_eq!(
        decode_batch(&packets),
        vec![
            score_message("/a", 1),
            score_message("/b", 2),
            inbound("/c", vec![]),
            score_message("/d", 4),
        ]
    );
    assert_eq!(decode_batch(&vec![]), vec![]);
}

#[test]
fn update_carries_out_the_packets_then_moves_the_clock() {
    let mut state = MatchState::new();
    let packets = vec![wire("/pause", vec![]), wire("/red/add", vec![Type::Int(7)])];
    let unknown = update(&mut state, &packets, TimeSpan::from_secs(30));
    assert_eq!(unknown, no_addresses());
    assert_eq!(state.phase(), Phase::Running);
    assert_eq!(state.score(Side::Red), 7);
    assert_eq!(state.time_left(), TimeSpan::from_secs(90));
}

#[test]
fn update_without_packets_only_moves_the_clock() {
    let mut state = running_with(3, 4);
    let unknown = update(&mut state, &vec![], TimeSpan::new(1, 500_000_000));
    assert_eq!(unknown, no_addresses());
    assert_eq!(state.phase(), Phase::Running);
    assert_eq!(state.score(Side::Red), 3);
    assert_eq!(state.score(Side::Blue), 4);
    assert_eq!(state.time_left(), TimeSpan::new(118, 500_000_000));
}

#[test]
fn update_goes_on_after_a_malformed_packet() {
    let mut state = running_with(1, 0);
    let packets = vec![
        wire("/red/add", vec![Type::Int(2)]),
        vec![1, 2, 3],
        wire("/red/add", vec![Type::Int(3)]),
    ];
    let unknown = update(&mut state, &packets, TimeSpan::zero());
    assert_eq!(unknown, no_addresses());
    assert_eq!(state.score(Side::Red), 6);
}

#[test]
fn update_unfolds_bundles_in_arrival_order() {
    let bundle = Packet::Bundle(Bundle {
        timetag: Time { seconds: 0, fractional: 1 },
        content: vec![
            OscPacket::Message(Message { addr: "/reset".to_string(), args: vec![] }),
            OscPacket::Message(Message { addr: "/blue/add".to_string(), args: vec![Type::Int(5)] }),
            OscPacket::Message(Message { addr: "/nowhere".to_string(), args: vec![] }),
        ],
    });
    let mut state = running_with(9, 9);
    let packets = vec![
        wire("/blue/sub", vec![Type::Int(9)]),
        nannou_osc::encode(bundle).unwrap(),
        wire("/blue/add", vec![Type::Int(4)]),
        wire("/blue/add", vec![Type::Int(1)]),
    ];
    let unknown = update(&mut state, &packets, TimeSpan::from_secs(10));
    assert_eq!(unknown, vec!["/nowhere".to_string()]);
    assert_eq!(state.phase(), Phase::Reset);
    assert_eq!(state.score(Side::Red), 0);
    assert_eq!(state.score(Side::Blue), 9);
    assert_eq!(state.time_left(), TimeSpan::from_secs(120));
}

#[test]
fn update_ends_the_match_when_the_clock_runs_out() {
    let mut state = running_with(2, 2);
    update(&mut state, &vec![], TimeSpan::new(119, 500_000_000));
    assert_eq!(state.phase(), Phase::Running);
    update(&mut state, &vec![wire("/red/add", vec![Type::Int(1)])], TimeSpan::from_secs(1));
    assert_eq!(state.phase(), Phase::Ended);
    assert_eq!(state.time_left(), TimeSpan::zero());
    assert_eq!(state.score(Side::Red), 3);
    update(&mut state, &vec![wire("/pause", vec![])], TimeSpan::from_secs(1));
    assert_eq!(state.phase(), Phase::Reset);
    assert_eq!(state.score(Side::Red), 0);
    assert_eq!(state.score(Side::Blue), 0);
    assert_eq!(state.time_left(), TimeSpan::from_secs(120));
}

#[test]
fn update_takes_a_float_amount_as_zero() {
    let mut state = running_with(2, 2);
    let unknown = update(
        &mut state,
        &vec![wire("/red/add", vec![Type::Float(3.0)])],
        TimeSpan::zero(),
    );
    assert_eq!(unknown, no_addresses());
    assert_eq!(state.score(Side::Red), 2);
}
