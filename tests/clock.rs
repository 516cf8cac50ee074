use cycle_game::game_state::{menu_screen_key_press, GameState, Seasion, TimeAxis, TimeState};

fn at(time: i32) -> TimeState {
    TimeState { time_axis: TimeAxis::Horizontal, time_step_delta: 5, time }
}

#[test]
fn default_clock() {
    assert_eq!(TimeState::default(), at(0));
    assert_eq!(GameState::default(), GameState::WelcomeScreen);
}

#[test]
fn hour_of_day() {
    assert_eq!(at(0).current_hour(), 0);
    assert_eq!(at(5).current_hour(), 5);
    assert_eq!(at(23).current_hour(), 23);
    assert_eq!(at(24).current_hour(), 0);
    assert_eq!(at(50).current_hour(), 2);
    assert_eq!(at(-1).current_hour(), 23);
    assert_eq!(at(-24).current_hour(), 0);
    assert_eq!(at(-25).current_hour(), 23);
}

#[test]
fn hour_repeats_every_day() {
    for t in [-100, -7, 0, 3, 17, 1000] {
        for k in [-3, -1, 1, 2, 10] {
            assert_eq!(at(t).current_hour(), at(t + 24 * k).current_hour());
        }
    }
    assert_eq!(at(i32::MAX).current_hour(), at(i32::MAX - 24).current_hour());
    assert_eq!(at(i32::MIN).current_hour(), at(i32::MIN + 24).current_hour());
}

#[test]
fn season_of_year() {
    assert_eq!(at(0).current_seasion(), Seasion::Spring);
    assert_eq!(at(47).current_seasion(), Seasion::Spring);
    assert_eq!(at(48).current_seasion(), Seasion::Summer);
    assert_eq!(at(96).current_seasion(), Seasion::Autum);
    assert_eq!(at(144).current_seasion(), Seasion::Winter);
    assert_eq!(at(192).current_seasion(), Seasion::Spring);
    assert_eq!(at(-1).current_seasion(), Seasion::Winter);
    assert_eq!(at(-48).current_seasion(), Seasion::Winter);
    assert_eq!(at(-49).current_seasion(), Seasion::Autum);
}

#[test]
fn start_key_leaves_welcome_screen_only() {
    assert_eq!(menu_screen_key_press(GameState::WelcomeScreen, true), GameState::Playing);
    assert_eq!(menu_screen_key_press(GameState::WelcomeScreen, false), GameState::WelcomeScreen);
    assert_eq!(menu_screen_key_press(GameState::Playing, true), GameState::Playing);
    assert_eq!(menu_screen_key_press(GameState::Dead, true), GameState::Dead);
}
