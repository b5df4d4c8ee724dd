//! The host side of a call that page script makes to a registered binding:
//! the call's arguments, and the one script that settles its promise.
use vstd::prelude::*;
use crate::json::{Json, json_text};
use crate::protocol::{descend, extract, object2, keys_are};
use crate::commands::{Command, command};

verus! {

/// One call from page script to a binding, not yet settled or settled.
#[derive(Debug)]
pub struct BindingCall {
    name: String,
    seq: i64,
    args: Vec<Json>,
    context_id: i64,
    settled: bool,
}

/// The name, sequence number and arguments that the page's stub sends for a
/// call, as the JSON object `{name, seq, args}`.
pub open spec fn call_fields(payload: Json) -> Option<(Seq<char>, i64, Seq<Json>)> {
    match (
        payload.member("name"@).text(),
        payload.member("seq"@).integer(),
        payload.member("args"@),
    ) {
        (Some(n), Some(s), Json::Array(a)) => Some((n, s, a@)),
        _ => None,
    }
}

/// The script that settles the page's promise for call `seq` of binding
/// `name`, given the JSON text of the result and of the error: it rejects with
/// the error where the error is truthy in the page, else resolves with the
/// result, and then forgets both callbacks of the call.
pub open spec fn settle_script(name: Seq<char>, seq: Seq<char>, result: Seq<char>, error: Seq<char>) -> Seq<char> {
    "if ("@ + error + ") { window['"@ + name + "']['errors'].get("@ + seq + ")("@ + error
        + "); } else { window['"@ + name + "']['callbacks'].get("@ + seq + ")("@ + result
        + "); } window['"@ + name + "']['callbacks'].delete("@ + seq + "); window['"@ + name
        + "']['errors'].delete("@ + seq + ");"@
}

/// The texts that stand for an outcome in the settling script: the result's
/// JSON and an empty error text `""` for success, nothing and the error's
/// JSON for failure.
pub open spec fn outcome_texts(outcome: Result<Json, Json>) -> (Seq<char>, Seq<char>) {
    match outcome {
        Ok(v) => (json_text(v), "\"\""@),
        Err(e) => (Seq::empty(), json_text(e)),
    }
}

/// Whether `c` is the `Runtime.evaluate` command that runs `script` in the
/// execution context `context_id`.
pub open spec fn is_evaluation_in(c: Command, script: Seq<char>, context_id: i64) -> bool {
    &&& c.method@ == "Runtime.evaluate"@
    &&& keys_are(c.params, seq!["expression"@, "contextId"@])
    &&& c.params.member("expression"@).is_text(script)
    &&& c.params.member("contextId"@) == Json::Int(context_id)
}

/// The number of settling scripts that `attempts` completions of one call
/// hand out, the call being settled already or not before the first.
pub open spec fn scripts_handed_out(settled: bool, attempts: nat) -> nat
    decreases attempts,
{
    if attempts == 0 {
        0
    } else {
        (if settled {
            0nat
        } else {
            1nat
        }) + scripts_handed_out(true, (attempts - 1) as nat)
    }
}

/// A call is settled exactly once: of any number of completions made on a
/// new call (`done`, `err`, `complete`, and the one made when the host drops
/// the call), the first hands out the settling script and the others none.
pub proof fn lemma_settled_exactly_once(attempts: nat)
    requires
        attempts >= 1,
    ensures
        scripts_handed_out(false, attempts) == 1,
        forall|n: nat| #[trigger] scripts_handed_out(true, n) == 0,
    decreases attempts,
{
    assert forall|n: nat| #[trigger] scripts_handed_out(true, n) == 0 by {
        lemma_settled_hands_out_none(n);
    }
    assert(scripts_handed_out(false, attempts) == 1 + scripts_handed_out(true, (attempts - 1) as nat));
}

proof fn lemma_settled_hands_out_none(n: nat)
    ensures
        scripts_handed_out(true, n) == 0,
    decreases n,
{
    if n > 0 {
        lemma_settled_hands_out_none((n - 1) as nat);
    }
}

/// The arguments of a call reach the host as page script sent them: from a
/// payload whose `args` is the array `args`, the call reads exactly `args`.
pub proof fn lemma_arguments_unchanged(payload: Json, name: Seq<char>, seq: i64, args: Vec<Json>)
    requires
        payload.member("name"@).is_text(name),
        payload.member("seq"@) == Json::Int(seq),
        payload.member("args"@) == Json::Array(args),
    ensures
        call_fields(payload) == Some((name, seq, args@)),
{
}

impl BindingCall {
    pub closed spec fn name(&self) -> Seq<char> {
        self.name@
    }

    pub closed spec fn seq(&self) -> i64 {
        self.seq
    }

    pub closed spec fn arguments(&self) -> Seq<Json> {
        self.args@
    }

    pub closed spec fn context_id(&self) -> i64 {
        self.context_id
    }

    /// Whether the script that settles the call was already handed out.
    pub closed spec fn is_settled(&self) -> bool {
        self.settled
    }

    /// A call read from the stub's payload, made in the execution context
    /// `context_id`; `None` where the payload lacks a name, a sequence number
    /// or an array of arguments.
    pub fn from_payload(payload: Json, context_id: i64) -> (r: Option<BindingCall>)
        ensures
            match r {
                Some(c) => call_fields(payload) == Some((c.name(), c.seq(), c.arguments()))
                    && c.context_id() == context_id && !c.is_settled(),
                None => call_fields(payload) is None,
            },
    {
        let top = Some(&payload);
        let name = match descend(top, "name") {
            Some(n) => match n.as_text() {
                Some(n) => Some(n.clone()),
                None => None,
            },
            None => None,
        };
        let seq = match descend(top, "seq") {
            Some(s) => s.as_int(),
            None => None,
        };
        let is_array = match descend(top, "args") {
            Some(Json::Array(_)) => true,
            _ => false,
        };
        match (name, seq) {
            (Some(name), Some(seq)) => {
                if is_array {
                    let args = extract(payload, "args");
                    match args {
                        Json::Array(a) => Some(
                            BindingCall { name, seq, args: a, context_id, settled: false },
                        ),
                        _ => None,
                    }
                } else {
                    None
                }
            },
            _ => None,
        }
    }

    /// The arguments that page script passed.
    pub fn args(&self) -> (r: &[Json])
        ensures
            r@ == self.arguments(),
    {
        self.args.as_slice()
    }

    /// The binding's name.
    pub fn name_text(&self) -> (r: &str)
        ensures
            r@ == self.name(),
    {
        self.name.as_str()
    }

    /// The script that settles this call with `outcome`.
    pub fn script(&self, outcome: &Result<Json, Json>) -> (r: String)
        ensures
            r@ == settle_script(
                self.name(),
                json_text(Json::Int(self.seq())),
                outcome_texts(*outcome).0,
                outcome_texts(*outcome).1,
            ),
    {
        let (result, error) = match outcome {
            Ok(v) => (v.to_text(), "\"\"".to_owned()),
            Err(e) => (String::new(), e.to_text()),
        };
        let seq = Json::Int(self.seq).to_text();
        let name = self.name.as_str();
        let mut s = "if (".to_owned();
        s.append(error.as_str());
        s.append(") { window['");
        s.append(name);
        s.append("']['errors'].get(");
        s.append(seq.as_str());
        s.append(")(");
        s.append(error.as_str());
        s.append("); } else { window['");
        s.append(name);
        s.append("']['callbacks'].get(");
        s.append(seq.as_str());
        s.append(")(");
        s.append(result.as_str());
        s.append("); } window['");
        s.append(name);
        s.append("']['callbacks'].delete(");
        s.append(seq.as_str());
        s.append("); window['");
        s.append(name);
        s.append("']['errors'].delete(");
        s.append(seq.as_str());
        s.append(");");
        s
    }

    /// Settles the call with `outcome`: the first time, the `Runtime.evaluate`
    /// command that runs the settling script in the call's execution context;
    /// afterwards nothing.
    pub fn complete(&mut self, outcome: Result<Json, Json>) -> (r: Option<Command>)
        ensures
            final(self).is_settled(),
            final(self).name() == old(self).name(),
            final(self).seq() == old(self).seq(),
            final(self).arguments() == old(self).arguments(),
            final(self).context_id() == old(self).context_id(),
            old(self).is_settled() ==> r is None,
            !old(self).is_settled() ==> (r matches Some(p) && is_evaluation_in(
                p,
                settle_script(
                    old(self).name(),
                    json_text(Json::Int(old(self).seq())),
                    outcome_texts(outcome).0,
                    outcome_texts(outcome).1,
                ),
                old(self).context_id(),
            )),
    {
        if self.settled {
            return None;
        }
        let script = self.script(&outcome);
        self.settled = true;
        proof {
            reveal_strlit("expression");
            reveal_strlit("contextId");
            assert("expression"@.len() != "contextId"@.len());
        }
        let params = object2("expression", Json::Str(script), "contextId", Json::Int(self.context_id));
        Some(command("Runtime.evaluate", params))
    }

    /// Settles the call successfully with `value`.
    pub fn done(&mut self, value: Json) -> (r: Option<Command>)
        ensures
            final(self).is_settled(),
            old(self).is_settled() ==> r is None,
            !old(self).is_settled() ==> (r matches Some(p) && is_evaluation_in(
                p,
                settle_script(
                    old(self).name(),
                    json_text(Json::Int(old(self).seq())),
                    json_text(value),
                    "\"\""@,
                ),
                old(self).context_id(),
            )),
    {
        self.complete(Ok(value))
    }

    /// Settles the call with the error `error`.
    pub fn err(&mut self, error: Json) -> (r: Option<Command>)
        ensures
            final(self).is_settled(),
            old(self).is_settled() ==> r is None,
            !old(self).is_settled() ==> (r matches Some(p) && is_evaluation_in(
                p,
                settle_script(
                    old(self).name(),
                    json_text(Json::Int(old(self).seq())),
                    Seq::empty(),
                    json_text(error),
                ),
                old(self).context_id(),
            )),
    {
        self.complete(Err(error))
    }
}

} // verus!
