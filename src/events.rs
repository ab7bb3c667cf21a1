use vstd::prelude::*;
use crate::data::ReturnMessageType;
use crate::text::{chars_of, string_of};

verus! {

/// A request from the editor.
#[derive(Debug, PartialEq, Eq)]
pub enum Messages {
    Run,
    Clean,
    ClearReplMemory,
    Info,
    Ping,
    Unknown(String),
}

/// The request an event name stands for.
pub open spec fn message_of(event: String) -> Messages {
    if event@ == "run"@ {
        Messages::Run
    } else if event@ == "clean"@ {
        Messages::Clean
    } else if event@ == "clearrepl"@ {
        Messages::ClearReplMemory
    } else if event@ == "ping"@ {
        Messages::Ping
    } else if event@ == "info"@ {
        Messages::Info
    } else {
        Messages::Unknown(event)
    }
}

fn str_eq(s: &String, lit: &str) -> (r: bool)
    ensures
        r == (s@ == lit@),
{
    let t = String::from_str(lit);
    *s == t
}

impl Messages {
    /// Decodes an event name; a name that is no request is kept as `Unknown`.
    pub fn from_event(event: String) -> (r: Messages)
        ensures
            r == message_of(event),
    {
        if str_eq(&event, "run") {
            Messages::Run
        } else if str_eq(&event, "clean") {
            Messages::Clean
        } else if str_eq(&event, "clearrepl") {
            Messages::ClearReplMemory
        } else if str_eq(&event, "ping") {
            Messages::Ping
        } else if str_eq(&event, "info") {
            Messages::Info
        } else {
            Messages::Unknown(event)
        }
    }
}

impl From<String> for Messages {
    fn from(event: String) -> (r: Messages) {
        Messages::from_event(event)
    }
}

impl vstd::std_specs::convert::FromSpecImpl<String> for Messages {
    open spec fn obeys_from_spec() -> bool {
        true
    }

    open spec fn from_spec(event: String) -> Messages {
        message_of(event)
    }
}

/// The index of the configuration entry whose key is `name`: the first such
/// entry, or 0 when no key matches.
pub fn index_from_name(name: &str, keys: &Vec<String>) -> (r: usize)
    ensures
        (exists|i: int| 0 <= i < keys@.len() && #[trigger] keys@[i]@ == name@) ==> (r
            < keys@.len() && keys@[r as int]@ == name@ && forall|j: int|
            0 <= j < r ==> #[trigger] keys@[j]@ != name@),
        !(exists|i: int| 0 <= i < keys@.len() && #[trigger] keys@[i]@ == name@) ==> r == 0,
{
    let n = String::from_str(name);
    let mut i: usize = 0;
    while i < keys.len()
        invariant
            i <= keys@.len(),
            n@ == name@,
            forall|j: int| 0 <= j < i ==> #[trigger] keys@[j]@ != name@,
        decreases keys@.len() - i,
    {
        if keys[i] == n {
            return i;
        }
        i += 1;
    }
    0
}

/// What follows the last `=` of `s`, or all of `s` when it holds none.
pub open spec fn after_last_eq(s: Seq<char>) -> Seq<char> {
    if exists|i: int| 0 <= i < s.len() && s[i] == '=' {
        let k = choose|i: int|
            0 <= i < s.len() && s[i] == '=' && forall|j: int| i < j < s.len() ==> s[j] != '=';
        s.skip(k + 1)
    } else {
        s
    }
}

/// The filetype in the editor's answer to `set ft?` (such as `  filetype=python`):
/// what follows its last `=`.
pub fn filetype_from_answer(answer: &str) -> (r: String)
    ensures
        r@ == after_last_eq(answer@),
{
    let s = chars_of(answer);
    let mut i: usize = s.len();
    while i > 0 && s[i - 1] != '='
        invariant
            i <= s@.len(),
            forall|j: int| i <= j < s@.len() ==> s@[j] != '=',
        decreases i,
    {
        i -= 1;
    }
    let mut t: Vec<char> = Vec::new();
    let mut j: usize = i;
    while j < s.len()
        invariant
            i <= j <= s@.len(),
            t@ == s@.subrange(i as int, j as int),
        decreases s@.len() - j,
    {
        t.push(s[j]);
        j += 1;
        assert(t@ =~= s@.subrange(i as int, j as int));
    }
    proof {
        if i > 0 {
            let k = (i - 1) as int;
            assert(s@[k] == '=');
            let c = choose|c: int|
                0 <= c < s@.len() && s@[c] == '=' && forall|j: int| c < j < s@.len() ==> s@[j] != '=';
            if c < k {
                assert(s@[k] != '=');
            }
            assert(c == k);
            assert(t@ =~= s@.skip(k + 1));
        } else {
            assert(t@ =~= s@);
        }
    }
    string_of(t.as_slice())
}

/// How results are handed back, from the `inline_messages` setting: echoed
/// messages when it is 1, multiline otherwise.
pub fn return_message_type_from(inline_messages: i64) -> (r: ReturnMessageType)
    ensures
        inline_messages == 1 ==> r == ReturnMessageType::EchoMsg,
        inline_messages != 1 ==> r == ReturnMessageType::Multiline,
{
    if inline_messages == 1 {
        ReturnMessageType::EchoMsg
    } else {
        ReturnMessageType::Multiline
    }
}

} // verus!
