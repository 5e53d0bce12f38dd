use vstd::prelude::*;

verus! {

/// A command-line option that the application declares.
pub struct CommandLineOption {
    pub long_name: &'static str,
    pub short_name: char,
    pub takes_value: bool,
    pub description: &'static str,
}

/// The option that asks for a start in the background.
pub fn background_option() -> (r: CommandLineOption)
    ensures
        r.long_name@ == "background"@,
        r.short_name == 'b',
        !r.takes_value,
        r.description@ == "Start the application in background"@,
{
    CommandLineOption {
        long_name: "background",
        short_name: 'b',
        takes_value: false,
        description: "Start the application in background",
    }
}

/// The key bindings registered at startup: an action name and its key chord.
pub open spec fn accelerator_table() -> Seq<(Seq<char>, Seq<char>)> {
    seq![
        ("app.quit"@, "<Control>q"@),
        ("window.close"@, "<Control>w"@),
        ("win.preferences"@, "<Control>comma"@),
        ("win.help"@, "F1"@),
    ]
}

/// The key bindings registered at startup. The quit binding ends the process
/// whether or not it was started in the background.
pub fn accelerators() -> (r: Vec<(&'static str, &'static str)>)
    ensures
        r@.len() == accelerator_table().len(),
        forall|i: int|
            0 <= i < r@.len() ==> (#[trigger] r@[i]).0@ == accelerator_table()[i].0 && r@[i].1@
                == accelerator_table()[i].1,
{
    let r = vec![
        ("app.quit", "<Control>q"),
        ("window.close", "<Control>w"),
        ("win.preferences", "<Control>comma"),
        ("win.help", "F1"),
    ];
    r
}

} // verus!
