use stund::terminator::FinishCommunicationState;
use stund::terminator::FinishCommunicationState::{NoLeads, SawFirstEnter, SawPeriod, SawSecondEnter};

fn feed_str(start: FinishCommunicationState, s: &str) -> FinishCommunicationState {
    start.feed(&s.as_bytes().to_vec())
}

#[test]
fn transition_follows_sentinel() {
    assert_eq!(NoLeads.transition(b'\n'), SawFirstEnter);
    assert_eq!(NoLeads.transition(b'.'), NoLeads);
    assert_eq!(NoLeads.transition(b'x'), NoLeads);
    assert_eq!(SawFirstEnter.transition(b'.'), SawPeriod);
    assert_eq!(SawFirstEnter.transition(b'\n'), SawFirstEnter);
    assert_eq!(SawFirstEnter.transition(b'a'), NoLeads);
    assert_eq!(SawPeriod.transition(b'\n'), SawSecondEnter);
    assert_eq!(SawPeriod.transition(b'.'), NoLeads);
    assert_eq!(SawPeriod.transition(b'q'), NoLeads);
    assert_eq!(SawSecondEnter.transition(b'x'), SawSecondEnter);
    assert_eq!(SawSecondEnter.transition(b'\n'), SawSecondEnter);
}

#[test]
fn seeded_acceptor_takes_immediate_terminator() {
    assert_eq!(feed_str(SawFirstEnter, ".\n"), SawSecondEnter);
    assert!(SawFirstEnter.feed(&b".\n".to_vec()).is_finished());
}

#[test]
fn fresh_acceptor_needs_leading_newline() {
    assert_eq!(feed_str(NoLeads, ".\n"), SawFirstEnter);
    assert_eq!(feed_str(NoLeads, "\n.\n"), SawSecondEnter);
}

#[test]
fn accepts_on_shortest_prefix() {
    let input = b"pw\n.\nmore".to_vec();
    for k in 0..=input.len() {
        let state = SawFirstEnter.feed(&input[..k].to_vec());
        assert_eq!(state == SawSecondEnter, k >= 5, "prefix length {}", k);
    }
}

#[test]
fn never_accepts_without_period_newline() {
    for s in ["", "pw\n", "a.b\n", "\n\n\n", "..", ".x\n.", "hello. world\n"] {
        assert_ne!(feed_str(SawFirstEnter, s), SawSecondEnter, "input {:?}", s);
    }
}

#[test]
fn period_not_after_newline_does_not_end() {
    assert_eq!(feed_str(SawFirstEnter, "a.\n"), SawFirstEnter);
    assert_eq!(feed_str(SawFirstEnter, "a.\n.\n"), SawSecondEnter);
}

#[test]
fn accepting_state_absorbs() {
    assert_eq!(feed_str(SawSecondEnter, "anything at all\n"), SawSecondEnter);
    assert!(!SawPeriod.is_finished());
}
