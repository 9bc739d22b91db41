//! The means by which the operations have their scripts run: a function from
//! script text to what the script printed (or why it could not run), and the
//! record of every script handed to it.

use vstd::prelude::*;

use crate::error::MailError;

verus! {

/// `out` is a reply that `run` can give to a script whose text is `script`.
pub open spec fn ran<F: Fn(String) -> Result<String, MailError>>(
    run: F,
    script: Seq<char>,
    out: Result<String, MailError>,
) -> bool {
    exists|s: String| s@ == script && #[trigger] call_ensures(run, (s,), out)
}

/// Runs scripts with a given function, and records, in order, the text of
/// each script it was handed.
pub struct Runner<F: Fn(String) -> Result<String, MailError>> {
    run: F,
    sent: Ghost<Seq<Seq<char>>>,
}

impl<F: Fn(String) -> Result<String, MailError>> Runner<F> {
    /// The function that runs a script.
    pub closed spec fn function(&self) -> F {
        self.run
    }

    /// The texts of the scripts run so far, oldest first.
    pub closed spec fn scripts(&self) -> Seq<Seq<char>> {
        self.sent@
    }

    /// Whether the function may be handed any script.
    pub open spec fn accepts_any(&self) -> bool {
        forall|s: String| call_requires(self.function(), (s,))
    }

    /// A runner that has run nothing yet.
    pub fn new(run: F) -> (r: Self)
        ensures
            r.function() == run,
            r.scripts() == Seq::<Seq<char>>::empty(),
    {
        Runner { run, sent: Ghost(Seq::empty()) }
    }

    /// Runs `script`; what it printed, or why it could not run.
    pub fn run(&mut self, script: String) -> (out: Result<String, MailError>)
        requires
            old(self).accepts_any(),
        ensures
            final(self).function() == old(self).function(),
            final(self).scripts() == old(self).scripts().push(script@),
            ran(old(self).function(), script@, out),
    {
        let ghost text = script@;
        let ghost handed = script;
        assert(call_requires(self.function(), (handed,)));
        let out = (self.run)(script);
        assert(call_ensures(self.run, (handed,), out));
        self.sent = Ghost(self.sent@.push(text));
        out
    }
}

/// `after` is `before` having run exactly the one script `script`.
pub open spec fn sent_once<F: Fn(String) -> Result<String, MailError>>(
    before: Runner<F>,
    after: Runner<F>,
    script: Seq<char>,
) -> bool {
    &&& after.function() == before.function()
    &&& after.scripts() == before.scripts().push(script)
}

} // verus!
