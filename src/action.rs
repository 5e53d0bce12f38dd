use vstd::prelude::*;

verus! {

/// A named global command of the application, invokable from a menu item,
/// a shortcut or an external signal alike.
#[derive(Clone, Copy, Debug, PartialEq, Eq, Structural)]
pub enum AppAction {
    Quit,
    About,
}

/// The name under which each action is registered.
pub open spec fn action_name(a: AppAction) -> Seq<char> {
    match a {
        AppAction::Quit => "quit"@,
        AppAction::About => "about"@,
    }
}

/// The action registered under `name`, if any.
pub open spec fn action_named(name: Seq<char>) -> Option<AppAction> {
    if name == action_name(AppAction::Quit) {
        Some(AppAction::Quit)
    } else if name == action_name(AppAction::About) {
        Some(AppAction::About)
    } else {
        None
    }
}

impl AppAction {
    /// The name under which this action is registered.
    pub fn name(&self) -> (r: &'static str)
        ensures
            r@ == action_name(*self),
    {
        match self {
            AppAction::Quit => "quit",
            AppAction::About => "about",
        }
    }

    /// Looks an action up by its registered name.
    pub fn from_name(name: &str) -> (r: Option<AppAction>)
        ensures
            r == action_named(name@),
            r matches Some(a) ==> action_name(a) == name@,
    {
        proof {
            reveal_strlit("quit");
            reveal_strlit("about");
            assert("quit"@.len() != "about"@.len());
        }
        let given = name.to_owned();
        let quit = "quit".to_owned();
        let about = "about".to_owned();
        if given == quit {
            Some(AppAction::Quit)
        } else if given == about {
            Some(AppAction::About)
        } else {
            None
        }
    }
}

/// The set of actions registered with the application: each at most once.
#[derive(Debug)]
pub struct ActionRouter {
    actions: Vec<AppAction>,
}

impl View for ActionRouter {
    type V = Seq<AppAction>;

    closed spec fn view(&self) -> Seq<AppAction> {
        self.actions@
    }
}

impl ActionRouter {
    /// No action is registered twice.
    pub open spec fn well_formed(&self) -> bool {
        self@.no_duplicates()
    }

    /// A router with nothing registered.
    pub fn new() -> (r: ActionRouter)
        ensures
            r@ == Seq::<AppAction>::empty(),
            r.well_formed(),
    {
        ActionRouter { actions: Vec::new() }
    }

    /// Whether `a` is registered.
    pub fn contains(&self, a: AppAction) -> (r: bool)
        ensures
            r == self@.contains(a),
    {
        let mut i: usize = 0;
        while i < self.actions.len()
            invariant
                0 <= i <= self.actions@.len(),
                forall|j: int| 0 <= j < i ==> self.actions@[j] != a,
            decreases self.actions@.len() - i,
        {
            if self.actions[i] == a {
                return true;
            }
            i = i + 1;
        }
        false
    }

    /// The number of registered actions.
    pub fn len(&self) -> (r: usize)
        ensures
            r == self@.len(),
    {
        self.actions.len()
    }

    /// How many times `a` is registered: at most once in a well-formed router.
    pub fn count_of(&self, a: AppAction) -> (r: usize)
        requires
            self.well_formed(),
        ensures
            r == (if self@.contains(a) { 1usize } else { 0usize }),
    {
        if self.contains(a) { 1 } else { 0 }
    }

    /// Registers `a` unless it is registered already; says whether it was added.
    pub fn register(&mut self, a: AppAction) -> (added: bool)
        requires
            old(self).well_formed(),
        ensures
            final(self).well_formed(),
            added == !old(self)@.contains(a),
            final(self)@ == (if added { old(self)@.push(a) } else { old(self)@ }),
    {
        if self.contains(a) {
            false
        } else {
            self.actions.push(a);
            proof {
                assert(self@ == old(self)@.push(a));
                assert forall|i: int, j: int|
                    0 <= i < self@.len() && 0 <= j < self@.len() && i != j implies self@[i]
                        != self@[j] by {
                    if i == old(self)@.len() {
                        assert(old(self)@.contains(self@[j]));
                    } else if j == old(self)@.len() {
                        assert(old(self)@.contains(self@[i]));
                    }
                }
            }
            true
        }
    }
}

} // verus!
