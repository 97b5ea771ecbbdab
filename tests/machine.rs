use traffic_light::{
    Color, Green, Red, TrafficLight, TrafficLightWrapper, Yellow, GREEN_WAIT_SECS, RED_WAIT_SECS,
    YELLOW_WAIT_SECS,
};

#[test]
fn states_carry_their_waits() {
    assert_eq!(Green::new().wait_time, 60);
    assert_eq!(Yellow::new().wait_time, 10);
    assert_eq!(Red::new().wait_time, 60);
    assert_eq!(GREEN_WAIT_SECS, 60);
    assert_eq!(YELLOW_WAIT_SECS, 10);
    assert_eq!(RED_WAIT_SECS, 60);
}

#[test]
fn light_starts_green() {
    let light = TrafficLight::<Green>::new();
    assert_eq!(light.state.wait_time, 60);
    let w = TrafficLightWrapper::new();
    assert_eq!(w.color(), Color::Green);
    assert_eq!(w.wait_time(), 60);
}

#[test]
fn conversions_follow_the_cycle() {
    let yellow: TrafficLight<Yellow> = TrafficLight::<Green>::new().into();
    assert_eq!(yellow.state.wait_time, 10);
    let red: TrafficLight<Red> = yellow.into();
    assert_eq!(red.state.wait_time, 60);
    let green: TrafficLight<Green> = TrafficLight::from(red);
    assert_eq!(green.state.wait_time, 60);
}

#[test]
fn green_yellow_red_green_scenario() {
    let w = TrafficLightWrapper::new();
    assert_eq!((w.color(), w.wait_time()), (Color::Green, 60));
    let w = w.step();
    assert_eq!((w.color(), w.wait_time()), (Color::Yellow, 10));
    let w = w.step();
    assert_eq!((w.color(), w.wait_time()), (Color::Red, 60));
    let w = w.step();
    assert_eq!((w.color(), w.wait_time()), (Color::Green, 60));
}

#[test]
fn step_gives_the_successor_of_each_state() {
    let from_green = TrafficLightWrapper::Green(TrafficLight { state: Green::new() }).step();
    assert!(matches!(from_green, TrafficLightWrapper::Yellow(_)));
    let from_yellow = TrafficLightWrapper::Yellow(TrafficLight { state: Yellow::new() }).step();
    assert!(matches!(from_yellow, TrafficLightWrapper::Red(_)));
    let from_red = TrafficLightWrapper::Red(TrafficLight { state: Red::new() }).step();
    assert!(matches!(from_red, TrafficLightWrapper::Green(_)));
}

#[test]
fn three_steps_return_to_the_start() {
    let starts = vec![
        TrafficLightWrapper::Green(TrafficLight { state: Green { wait_time: 5 } }),
        TrafficLightWrapper::Yellow(TrafficLight { state: Yellow { wait_time: 0 } }),
        TrafficLightWrapper::Red(TrafficLight { state: Red { wait_time: 60 } }),
    ];
    for s in starts {
        let c = s.color();
        let back = s.step().step().step();
        assert_eq!(back.color(), c);
    }
}

#[test]
fn waits_are_restored_after_a_step() {
    let odd = TrafficLightWrapper::Red(TrafficLight { state: Red { wait_time: 7 } });
    assert_eq!(odd.wait_time(), 7);
    let next = odd.step();
    assert_eq!((next.color(), next.wait_time()), (Color::Green, 60));
}

#[test]
fn thousand_steps_from_green_follow_the_cycle() {
    let order = [Color::Green, Color::Yellow, Color::Red];
    let waits = [60u64, 10, 60];
    let mut w = TrafficLightWrapper::new();
    for i in 0..=1000usize {
        assert_eq!(w.color(), order[i % 3]);
        assert_eq!(w.wait_time(), waits[i % 3]);
        w = w.step();
    }
}
