//! A command invocation as plain values, and the lookup of its options.

use vstd::prelude::*;
use crate::text::same_text;

verus! {

/// The value of one command option.
#[derive(Debug, Clone)]
pub enum OptionValue {
    /// A text value.
    Text(String),
    /// A user: their identity, and their name where the platform resolved it.
    User { id: String, name: Option<String> },
    /// Any other kind of value.
    Other,
}

/// One named option of an invocation.
#[derive(Debug, Clone)]
pub struct CommandOption {
    pub name: String,
    pub value: OptionValue,
}

/// One command invocation. `user_id` and `user_name` come from the
/// platform's authenticated context, never from what the user typed.
#[derive(Debug, Clone)]
pub struct Invocation {
    pub command: String,
    pub user_id: String,
    pub user_name: String,
    /// The options given directly to the command.
    pub options: Vec<CommandOption>,
    /// The name of the first option, which names the sub-command for
    /// commands that have them.
    pub sub_command: Option<String>,
    /// The options of that sub-command.
    pub sub_options: Vec<CommandOption>,
}

/// Index of the first option called `name`, if any.
pub open spec fn first_named(opts: Seq<CommandOption>, name: Seq<char>) -> Option<int>
    decreases opts.len(),
{
    if opts.len() == 0 {
        None
    } else {
        match first_named(opts.drop_last(), name) {
            Some(i) => Some(i),
            None => if opts.last().name@ == name { Some(opts.len() - 1) } else { None },
        }
    }
}

/// The text of the first option called `name`, if it has one.
pub open spec fn text_option(opts: Seq<CommandOption>, name: Seq<char>) -> Option<Seq<char>> {
    match first_named(opts, name) {
        Some(i) => match opts[i].value {
            OptionValue::Text(s) => Some(s@),
            _ => None,
        },
        None => None,
    }
}

/// The text of the first option called `name`, or nothing.
pub open spec fn text_or_empty(opts: Seq<CommandOption>, name: Seq<char>) -> Seq<char> {
    match text_option(opts, name) {
        Some(s) => s,
        None => Seq::empty(),
    }
}

/// The user of the first option called `name` (identity, resolved name), if
/// it holds one.
pub open spec fn user_option(opts: Seq<CommandOption>, name: Seq<char>) -> Option<(Seq<char>, Option<Seq<char>>)> {
    match first_named(opts, name) {
        Some(i) => match opts[i].value {
            OptionValue::User { id, name } => Some((id@, match name {
                Some(n) => Some(n@),
                None => None,
            })),
            _ => None,
        },
        None => None,
    }
}

proof fn lemma_first_named_step(opts: Seq<CommandOption>, name: Seq<char>, i: int)
    requires
        0 <= i < opts.len(),
        first_named(opts.take(i), name) is None,
    ensures
        opts.take(i + 1).drop_last() == opts.take(i),
        first_named(opts.take(i + 1), name) == (if opts[i].name@ == name { Some(i) } else { None::<int> }),
{
    assert(opts.take(i + 1).drop_last() =~= opts.take(i));
}

proof fn lemma_first_named_prefix(opts: Seq<CommandOption>, name: Seq<char>, i: int, k: int)
    requires
        0 <= i <= k <= opts.len(),
        first_named(opts.take(i), name) == Some(i - 1),
    ensures
        first_named(opts.take(k), name) == Some(i - 1),
    decreases k - i,
{
    if k > i {
        lemma_first_named_prefix(opts, name, i, k - 1);
        assert(opts.take(k).drop_last() =~= opts.take(k - 1));
    }
}

/// Index of the first option called `name`.
pub fn find_named(opts: &Vec<CommandOption>, name: &str) -> (r: Option<usize>)
    ensures
        match r {
            Some(i) => i < opts@.len() && first_named(opts@, name@) == Some(i as int),
            None => first_named(opts@, name@) is None,
        },
{
    let n = opts.len();
    let mut i: usize = 0;
    assert(opts@.take(0) =~= Seq::<CommandOption>::empty());
    while i < n
        invariant
            n == opts@.len(),
            i <= n,
            first_named(opts@.take(i as int), name@) is None,
        decreases n - i,
    {
        proof { lemma_first_named_step(opts@, name@, i as int); }
        if same_text(opts[i].name.as_str(), name) {
            proof { lemma_first_named_prefix(opts@, name@, i + 1, n as int); }
            assert(opts@.take(n as int) =~= opts@);
            return Some(i);
        }
        i = i + 1;
    }
    assert(opts@.take(n as int) =~= opts@);
    None
}

/// The text of the first option called `name`, if it has one.
pub fn find_text(opts: &Vec<CommandOption>, name: &str) -> (r: Option<String>)
    ensures
        match r {
            Some(s) => text_option(opts@, name@) == Some(s@),
            None => text_option(opts@, name@) is None,
        },
{
    match find_named(opts, name) {
        Some(i) => match &opts[i].value {
            OptionValue::Text(s) => Some(s.clone()),
            _ => None,
        },
        None => None,
    }
}

/// The text of the first option called `name`, or an empty string.
pub fn text_or_default(opts: &Vec<CommandOption>, name: &str) -> (r: String)
    ensures
        r@ == text_or_empty(opts@, name@),
{
    match find_text(opts, name) {
        Some(s) => s,
        None => String::new(),
    }
}

/// The user of the first option called `name`: identity and resolved name.
pub fn find_user(opts: &Vec<CommandOption>, name: &str) -> (r: Option<(String, Option<String>)>)
    ensures
        match r {
            Some((id, n)) => user_option(opts@, name@) == Some((id@, match n {
                Some(n) => Some(n@),
                None => None::<Seq<char>>,
            })),
            None => user_option(opts@, name@) is None,
        },
{
    match find_named(opts, name) {
        Some(i) => match &opts[i].value {
            OptionValue::User { id, name } => Some((id.clone(), name.clone())),
            _ => None,
        },
        None => None,
    }
}

} // verus!
