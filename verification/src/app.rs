//! Application state shown by the display layer.

use vstd::prelude::*;

verus! {

/// The welcome screen; it carries no data.
pub struct Welcome {}

/// A screen together with the state it renders.
pub struct View<T> {
    pub state: T,
}

impl View<Welcome> {
    /// The welcome view.
    pub fn new() -> (v: Self)
        ensures
            v == (View { state: Welcome {  } }),
    {
        View { state: Welcome {  } }
    }
}

/// The screens the application can show.
pub enum Views {
    Welcome(View<Welcome>),
}

/// The error banner: either a message or nothing.
pub enum ErrorState {
    Error(String),
    Clear,
}

/// What the application currently shows.
pub struct AppState {
    pub error: ErrorState,
    pub view: Views,
}

/// The application.
pub struct App {
    pub state: AppState,
}

impl App {
    /// A fresh application: the welcome view and no error.
    pub fn new() -> (a: App)
        ensures
            a.state.error == ErrorState::Clear,
            a.state.view == Views::Welcome(View { state: Welcome {  } }),
    {
        App { state: AppState { view: Views::Welcome(View::new()), error: ErrorState::Clear } }
    }
}

} // verus!
