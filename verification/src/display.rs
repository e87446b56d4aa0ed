//! Dry-run output: one line per planned action.

use vstd::prelude::*;

verus! {

use vstd::string::StringExecFns;

/// A planned action, as printed in dry-run output.
#[derive(Clone, Copy, Debug, PartialEq, Eq, Structural)]
pub enum ActionType {
    Remove,
    Add,
    Overwrite,
    Append,
    Move,
    Skip,
}

/// The label printed for an action.
pub open spec fn action_label_spec(a: ActionType) -> Seq<char> {
    match a {
        ActionType::Remove => "REMOVE"@,
        ActionType::Add => "ADD"@,
        ActionType::Overwrite => "OVERWRITE"@,
        ActionType::Append => "APPEND"@,
        ActionType::Move => "MOVE"@,
        ActionType::Skip => "SKIP"@,
    }
}

impl ActionType {
    /// The action's label text.
    pub fn label(&self) -> (r: &'static str)
        ensures
            r@ == action_label_spec(*self),
    {
        match self {
            ActionType::Remove => "REMOVE",
            ActionType::Add => "ADD",
            ActionType::Overwrite => "OVERWRITE",
            ActionType::Append => "APPEND",
            ActionType::Move => "MOVE",
            ActionType::Skip => "SKIP",
        }
    }
}

/// `n` spaces.
pub open spec fn spaces(n: int) -> Seq<char> {
    Seq::new(n as nat, |i: int| ' ')
}

/// The label padded with spaces to at least ten characters.
pub open spec fn padded_label(a: ActionType) -> Seq<char> {
    action_label_spec(a) + spaces(10 - action_label_spec(a).len())
}

/// The dry-run line for an action: the label padded to ten characters, a
/// space, the path, and, when present, an arrow and the detail text.
pub open spec fn dry_run_line_spec(a: ActionType, path: Seq<char>, details: Option<Seq<char>>)
    -> Seq<char> {
    padded_label(a) + " "@ + path + (match details {
        Some(d) => " -> "@ + d,
        None => Seq::<char>::empty(),
    })
}

/// Builds the dry-run line for one planned action.
pub fn format_dry_run_line(action: ActionType, path: &str, details: Option<&str>) -> (r: String)
    ensures
        r@ == dry_run_line_spec(action, path@, match details {
            Some(d) => Some(d@),
            None => None,
        }),
{
    let label = action.label();
    let mut line = label.to_owned();
    proof {
        reveal_strlit("REMOVE");
        reveal_strlit("ADD");
        reveal_strlit("OVERWRITE");
        reveal_strlit("APPEND");
        reveal_strlit("MOVE");
        reveal_strlit("SKIP");
    }
    let pad: usize = match action {
        ActionType::Remove => 4,
        ActionType::Add => 7,
        ActionType::Overwrite => 1,
        ActionType::Append => 4,
        ActionType::Move => 6,
        ActionType::Skip => 6,
    };
    proof {
        assert(pad == 10 - action_label_spec(action).len());
    }
    let mut j: usize = 0;
    while j < pad
        invariant
            j <= pad,
            pad == 10 - action_label_spec(action).len(),
            line@ == action_label_spec(action) + spaces(j as int),
        decreases pad - j,
    {
        line.push(' ');
        j = j + 1;
        assert(line@ =~= action_label_spec(action) + spaces(j as int));
    }
    line.append(" ");
    line.append(path);
    match details {
        Some(d) => {
            line.append(" -> ");
            line.append(d);
        }
        None => {}
    }
    proof {
        assert(line@ =~= dry_run_line_spec(action, path@, match details {
            Some(d) => Some(d@),
            None => None,
        }));
    }
    line
}

} // verus!
