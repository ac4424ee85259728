//! An execution-trace observer for an EVM host: it counts interpreter steps
//! and message calls, and words one trace line per observed event.

pub mod history;
pub mod plugin;
pub mod render;
pub mod trace;

pub use crate::plugin::{
    create_config, create_detailed_config, create_plugin, HelloWorldInspectorConfig,
    HelloWorldInspectorPlugin,
};

use crate::history::{Hook, Tally};
use crate::render::{address_string, amount_string, bool_str, push_decimal};
use vstd::prelude::*;

verus! {

/// An inspector that greets every execution event of the host with a trace
/// line and counts the steps and the calls it has seen.
///
/// There is one method per hook of the host's callback interface. A hook
/// takes, as plain values, what the host reports of the event, and hands
/// back the line to emit; emitting it is left to the caller. The two
/// counters are the whole state, and `@` gives them as a [`Tally`].
#[derive(Debug)]
pub struct HelloWorldInspector {
    /// How many times the step hook has run.
    pub step_count: u64,
    /// How many times the call hook has run.
    pub call_count: u64,
}

impl View for HelloWorldInspector {
    type V = Tally;

    open spec fn view(&self) -> Tally {
        Tally { steps: self.step_count as nat, calls: self.call_count as nat }
    }
}

impl Default for HelloWorldInspector {
    /// An inspector that has observed nothing.
    fn default() -> (inspector: Self)
        ensures
            inspector.step_count == 0,
            inspector.call_count == 0,
            inspector@ == Tally::zero(),
    {
        HelloWorldInspector { step_count: 0, call_count: 0 }
    }
}

impl HelloWorldInspector {
    /// An inspector that has observed nothing. The line that announces it
    /// is had from [`HelloWorldInspector::announcement`].
    pub fn new() -> (inspector: Self)
        ensures
            inspector.step_count == 0,
            inspector.call_count == 0,
            inspector@ == Tally::zero(),
    {
        HelloWorldInspector { step_count: 0, call_count: 0 }
    }

    /// The line that announces a newly made inspector.
    pub fn announcement() -> (line: String)
        ensures
            line@ == trace::initialized_line(),
    {
        String::from_str("Hello, world! Inspector initialized.")
    }

    /// The number of steps observed so far.
    pub fn steps(&self) -> (count: u64)
        ensures
            count == self.step_count,
    {
        self.step_count
    }

    /// The number of calls observed so far.
    pub fn calls(&self) -> (count: u64)
        ensures
            count == self.call_count,
    {
        self.call_count
    }

    /// The hook for the start of a code-execution frame.
    pub fn initialize_interp(&mut self) -> (line: String)
        ensures
            final(self)@ == old(self)@.after(Hook::InitializeInterp),
            line@ == trace::interpreter_line(),
    {
        String::from_str("Hello, world! Interpreter initializing...")
    }

    /// The hook that runs before each instruction, with the opcode about to
    /// execute. It counts the step, and reports every hundredth one: there
    /// is a line exactly when the new count is a multiple of 100.
    pub fn step(&mut self, opcode: u8) -> (line: Option<String>)
        requires
            old(self).step_count < u64::MAX,
        ensures
            final(self)@ == old(self)@.after(Hook::Step),
            match line {
                Some(text) => trace::is_reported_step(final(self)@.steps) && text@
                    == trace::step_line(final(self)@.steps, opcode),
                None => !trace::is_reported_step(final(self)@.steps),
            },
    {
        self.step_count = self.step_count + 1;
        if self.step_count % 100 == 0 {
            let mut text = String::from_str("Hello, world! Step #");
            push_decimal(&mut text, self.step_count);
            text.append(" - Opcode: ");
            push_decimal(&mut text, opcode as u64);
            Some(text)
        } else {
            None
        }
    }

    /// The hook that runs after each instruction. It observes nothing and
    /// emits nothing.
    pub fn step_end(&mut self)
        ensures
            final(self)@ == old(self)@.after(Hook::StepEnd),
    {
    }

    /// The hook for a log record that the executed code emits, with the
    /// number of its topics and the length of its payload in bytes.
    pub fn log(&mut self, topics: usize, data_len: usize) -> (line: String)
        ensures
            final(self)@ == old(self)@.after(Hook::Log),
            line@ == trace::log_line(topics as nat, data_len as nat),
    {
        let mut line = String::from_str("Hello, world! Log emitted with ");
        push_decimal(&mut line, topics as u64);
        line.append(" topics and ");
        push_decimal(&mut line, data_len as u64);
        line.append(" bytes of data");
        line
    }

    /// The hook that runs before a message call, with the address that is
    /// called. It counts the call. The second part of the reply is the
    /// outcome to put in place of the call: always `None`, so that the host
    /// goes on with the call itself.
    pub fn call<O>(&mut self, target: [u8; 20]) -> (reply: (String, Option<O>))
        requires
            old(self).call_count < u64::MAX,
        ensures
            final(self)@ == old(self)@.after(Hook::Call),
            reply.0@ == trace::call_line(final(self)@.calls, target@),
            reply.1 is None,
    {
        self.call_count = self.call_count + 1;
        let mut line = String::from_str("Hello, world! Call #");
        push_decimal(&mut line, self.call_count);
        line.append(" to address: ");
        let address = address_string(&target);
        line.append(address.as_str());
        (line, None)
    }

    /// The hook that runs after a message call, with whether its result
    /// indicates success, and with the outcome, which is handed back as it
    /// came.
    pub fn call_end<O>(&mut self, succeeded: bool, outcome: O) -> (reply: (String, O))
        ensures
            final(self)@ == old(self)@.after(Hook::CallEnd),
            reply.0@ == trace::call_end_line(succeeded),
            reply.1 == outcome,
    {
        let mut line = String::from_str("Hello, world! Call ended with success: ");
        line.append(bool_str(succeeded));
        (line, outcome)
    }

    /// The hook that runs before a contract creation, with the length of
    /// the initialization code in bytes. The second part of the reply is
    /// the outcome to put in place of the creation: always `None`.
    pub fn create<O>(&mut self, init_code_len: usize) -> (reply: (String, Option<O>))
        ensures
            final(self)@ == old(self)@.after(Hook::Create),
            reply.0@ == trace::create_line(init_code_len as nat),
            reply.1 is None,
    {
        let mut line = String::from_str("Hello, world! Contract creation with ");
        push_decimal(&mut line, init_code_len as u64);
        line.append(" bytes of code");
        (line, None)
    }

    /// The hook that runs after a contract creation, with whether its
    /// result indicates success, and with the outcome, which is handed back
    /// as it came.
    pub fn create_end<O>(&mut self, succeeded: bool, outcome: O) -> (reply: (String, O))
        ensures
            final(self)@ == old(self)@.after(Hook::CreateEnd),
            reply.0@ == trace::create_end_line(succeeded),
            reply.1 == outcome,
    {
        let mut line = String::from_str("Hello, world! Contract creation ended with success: ");
        line.append(bool_str(succeeded));
        (line, outcome)
    }

    /// The hook for a self-destruct, with the contract's address, the
    /// beneficiary's address and the amount handed over in wei, as 64-bit
    /// limbs, least significant first.
    pub fn selfdestruct(&mut self, contract: [u8; 20], target: [u8; 20], value: [u64; 4]) -> (line:
        String)
        ensures
            final(self)@ == old(self)@.after(Hook::SelfDestruct),
            line@ == trace::selfdestruct_line(contract@, target@, value@),
    {
        let mut line = String::from_str("Hello, world! Contract ");
        let from = address_string(&contract);
        line.append(from.as_str());
        line.append(" self-destructed, sending ");
        let amount = amount_string(&value);
        line.append(amount.as_str());
        line.append(" wei to ");
        let to = address_string(&target);
        line.append(to.as_str());
        line
    }
}

} // verus!
