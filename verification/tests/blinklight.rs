use blinklight::cycle::{advance, intensities, Color};
use blinklight::drive::{pwm_updates, step, GREEN_PWM_SCALE, STEP_DELAY_MS, UART_BAUD};
use blinklight::echo::{diagnostic_line, drain_lines};
use blinklight::lights::{start, Blinklight, Blue, Green, LightState, Red};

#[test]
fn intensities_one_channel_at_max() {
    for (color, which) in [(Color::Red, 0), (Color::Green, 1), (Color::Blue, 2)] {
        let (r, g, b) = intensities(color);
        let channels = [r, g, b];
        for (i, &v) in channels.iter().enumerate() {
            if i == which {
                assert_eq!(v, 255);
            } else {
                assert_eq!(v, 0);
            }
        }
    }
}

#[test]
fn advance_has_no_fixed_point() {
    for color in [Color::Red, Color::Green, Color::Blue] {
        assert_ne!(advance(color), color);
    }
}

#[test]
fn advance_is_a_bijection() {
    let mut seen = vec![];
    for color in [Color::Red, Color::Green, Color::Blue] {
        let next = advance(color);
        assert!(!seen.contains(&next));
        seen.push(next);
    }
    assert_eq!(seen.len(), 3);
}

#[test]
fn advance_three_times_is_identity() {
    for color in [Color::Red, Color::Green, Color::Blue] {
        assert_eq!(advance(advance(advance(color))), color);
    }
}

#[test]
fn cycle_from_red_has_period_three() {
    let expected = [Color::Red, Color::Green, Color::Blue];
    let mut current = Color::Red;
    for n in 0..12 {
        assert_eq!(current, expected[n % 3]);
        current = advance(current);
    }
}

#[test]
fn end_to_end_cycle_scenario() {
    let red = Color::Red;
    assert_eq!(intensities(red), (255, 0, 0));
    let green = advance(red);
    assert_eq!(green, Color::Green);
    assert_eq!(intensities(green), (0, 255, 0));
    let blue = advance(green);
    assert_eq!(blue, Color::Blue);
    assert_eq!(intensities(blue), (0, 0, 255));
    assert_eq!(advance(blue), Color::Red);
}

#[test]
fn typed_lights_walk_the_same_cycle() {
    let light = start();
    assert_eq!(light.rgb(), (255, 0, 0));
    let light: Blinklight<Green> = light.into();
    assert_eq!(light.rgb(), (0, 255, 0));
    let light: Blinklight<Blue> = light.into();
    assert_eq!(light.rgb(), (0, 0, 255));
    let light: Blinklight<Red> = light.into();
    assert_eq!(light.rgb(), (255, 0, 0));
}

#[test]
fn typed_states_match_the_table() {
    assert_eq!(Red.rgb(), (255, 0, 0));
    assert_eq!(Green.rgb(), (0, 255, 0));
    assert_eq!(Blue.rgb(), (0, 0, 255));
}

#[test]
fn diagnostic_line_exact_values() {
    assert_eq!(diagnostic_line(0), "byte read 0");
    assert_eq!(diagnostic_line(9), "byte read 9");
    assert_eq!(diagnostic_line(10), "byte read 10");
    assert_eq!(diagnostic_line(65), "byte read 65");
    assert_eq!(diagnostic_line(99), "byte read 99");
    assert_eq!(diagnostic_line(100), "byte read 100");
    assert_eq!(diagnostic_line(200), "byte read 200");
    assert_eq!(diagnostic_line(255), "byte read 255");
}

#[test]
fn drain_scenario_two_bytes_then_empty() {
    let lines = drain_lines(&vec![0x41, 0x0A]);
    assert_eq!(lines.len(), 2);
    assert_eq!(lines[0], "byte read 65");
    assert_eq!(lines[1], "byte read 10");
}

#[test]
fn drain_with_nothing_pending_emits_nothing() {
    let lines = drain_lines(&vec![]);
    assert!(lines.is_empty());
}

#[test]
fn step_yields_current_triple_and_successor() {
    assert_eq!(step(Color::Red), ((255, 0, 0), Color::Green));
    assert_eq!(step(Color::Green), ((0, 255, 0), Color::Blue));
    assert_eq!(step(Color::Blue), ((0, 0, 255), Color::Red));
}

#[test]
fn one_full_cycle_issues_three_updates_in_order() {
    let updates = pwm_updates(Color::Red, 3);
    assert_eq!(updates, vec![(255, 0, 0), (0, 255, 0), (0, 0, 255)]);
}

#[test]
fn updates_repeat_with_period_three() {
    let updates = pwm_updates(Color::Red, 9);
    assert_eq!(updates.len(), 9);
    for i in 0..9 {
        assert_eq!(updates[i], updates[i % 3]);
    }
    let from_green = pwm_updates(Color::Green, 2);
    assert_eq!(from_green, vec![(0, 255, 0), (0, 0, 255)]);
}

#[test]
fn fixed_configuration_constants() {
    assert_eq!(STEP_DELAY_MS, 500);
    assert_eq!(GREEN_PWM_SCALE, 512);
    assert_eq!(UART_BAUD, 115200);
}
