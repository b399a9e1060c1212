use kafka_client::app::App;
use kafka_client::app::ErrorState;
use kafka_client::app::View;
use kafka_client::app::Views;
use kafka_client::app::Welcome;

#[test]
fn welcome_view_holds_the_welcome_state() {
    let view: View<Welcome> = View::new();
    let Welcome {} = view.state;
}

#[test]
fn fresh_app_shows_welcome_and_no_error() {
    let app = App::new();
    assert!(matches!(app.state.error, ErrorState::Clear));
    assert!(matches!(app.state.view, Views::Welcome(_)));
}

#[test]
fn error_state_can_carry_a_message() {
    let mut app = App::new();
    app.state.error = ErrorState::Error(String::from("broker unreachable"));
    match app.state.error {
        ErrorState::Error(m) => assert_eq!(m, "broker unreachable"),
        ErrorState::Clear => panic!("the error was set"),
    }
}
