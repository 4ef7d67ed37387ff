//! The tool dispatcher.
//!
//! A server's registry is fixed at startup: an ordered list of tool
//! descriptors, exposed verbatim on a list-tools query. Each invocation
//! runs a small state machine — received, validated, executing, then
//! succeeded or failed — with no retries: a failure is terminal for that
//! invocation, and callers decide whether to try again.

use vstd::prelude::*;

use crate::error::{message_of, BridgeError, ToolError};
use crate::envelope::{ContentItem, ToolResult};
use crate::json::JsonValue;
use crate::schema::{field_ok, first_failed_field, validate_arguments, ToolDescriptor};

verus! {

/// Whether some tool of `tools` carries `name`.
pub open spec fn has_tool(tools: Seq<ToolDescriptor>, name: Seq<char>) -> bool {
    exists|i: int| 0 <= i < tools.len() && (#[trigger] tools[i]).name@ == name
}

/// The registry a server is started with: its descriptors, in
/// registration order, immutable once built.
#[derive(Debug)]
pub struct ToolRegistry {
    pub tools: Vec<ToolDescriptor>,
}

/// Whether the tool at `i` has a name all later tools avoid.
pub open spec fn distinct_from(tools: Seq<ToolDescriptor>, i: int) -> bool {
    forall|q: int| i < q < tools.len() ==> tools[i].name@ != (#[trigger] tools[q]).name@
}

impl ToolRegistry {
    /// Whether every tool name is unique within this registry, as a
    /// server's fixed registry must be.
    pub open spec fn wf(&self) -> bool {
        forall|p: int| 0 <= p < self.tools@.len() ==> #[trigger] distinct_from(self.tools@, p)
    }

    /// Checks name uniqueness, as a server does once at startup, when
    /// registration completeness is decided rather than inferred.
    pub fn well_formed(&self) -> (r: bool)
        ensures
            r == self.wf(),
    {
        let n = self.tools.len();
        for i in 0..n
            invariant
                n == self.tools@.len(),
                forall|p: int| 0 <= p < i ==> #[trigger] distinct_from(self.tools@, p),
        {
            for j in (i + 1)..n
                invariant
                    n == self.tools@.len(),
                    i < n,
                    forall|q: int| i < q < j ==> self.tools@[i as int].name@ != (
                    #[trigger] self.tools@[q]).name@,
            {
                if self.tools[i].name == self.tools[j].name {
                    proof {
                        assert(!distinct_from(self.tools@, i as int));
                    }
                    return false;
                }
            }
            proof {
                assert(distinct_from(self.tools@, i as int));
            }
        }
        true
    }

    /// The position of the first tool named `name`, if any.
    pub fn find_tool(&self, name: &String) -> (r: Option<usize>)
        ensures
            r matches Some(i) ==> i < self.tools@.len() && self.tools@[i as int].name@ == name@
                && (forall|j: int| 0 <= j < i ==> (#[trigger] self.tools@[j]).name@ != name@),
            r is None <==> !has_tool(self.tools@, name@),
    {
        let n = self.tools.len();
        for i in 0..n
            invariant
                n == self.tools@.len(),
                forall|j: int| 0 <= j < i ==> (#[trigger] self.tools@[j]).name@ != name@,
        {
            if self.tools[i].name == *name {
                return Some(i);
            }
        }
        None
    }
}

/// Where one invocation stands.
#[derive(Debug)]
pub enum InvocationState {
    /// The call arrived; nothing has been checked yet.
    Received,
    /// The tool exists and the arguments matched its schema.
    Validated { tool: usize },
    /// The bound handler is running.
    Executing { tool: usize },
    /// The handler's response, wrapped as exactly one content item.
    Succeeded { result: ToolResult },
    /// Terminal failure: the protocol error object. Nothing is retried
    /// inside the dispatcher.
    Failed { error: ToolError },
}

/// One tool invocation, from arrival to its terminal state.
#[derive(Debug)]
pub struct Invocation {
    state: InvocationState,
}

impl Invocation {
    /// Where this invocation stands.
    pub closed spec fn state(&self) -> InvocationState {
        self.state
    }

    /// A freshly received invocation.
    pub fn new() -> (r: Invocation)
        ensures
            r.state() is Received,
    {
        Invocation { state: InvocationState::Received }
    }

    /// Resolves the tool name and validates the argument object against
    /// its schema. An unknown name or a schema mismatch moves straight to
    /// the terminal failure, before any downstream work; otherwise the
    /// invocation is validated and bound to the first tool of that name.
    pub fn validate(
        &mut self,
        registry: &ToolRegistry,
        name: &String,
        args: &Vec<(String, JsonValue)>,
    ) -> (r: Result<usize, ()>)
        requires
            old(self).state() is Received,
        ensures
            r matches Ok(i) ==> {
                &&& final(self).state() matches InvocationState::Validated { tool } && tool == i
                &&& i < registry.tools@.len()
                &&& registry.tools@[i as int].name@ == name@
                &&& forall|j: int|
                    0 <= j < registry.tools@[i as int].input_schema@.len() ==> field_ok(
                        #[trigger] registry.tools@[i as int].input_schema@[j],
                        args@,
                    )
            },
            r is Err ==> (final(self).state() matches InvocationState::Failed { error }
                && error.code@ == "INTERNAL_ERROR"@),
            !has_tool(registry.tools@, name@) ==> r is Err && (final(self).state()
                matches InvocationState::Failed { error } && error.message@ == message_of(
                BridgeError::ToolNotFound { name: *name },
            )),
            r is Err && has_tool(registry.tools@, name@) ==> exists|i: int, k: int|
                {
                    &&& 0 <= i < registry.tools@.len()
                    &&& registry.tools@[i].name@ == name@
                    &&& #[trigger] first_failed_field(registry.tools@[i].input_schema@, args@, k)
                    &&& final(self).state() matches InvocationState::Failed { error }
                        && error.message@ == message_of(
                        BridgeError::InvalidArguments {
                            field: registry.tools@[i].input_schema@[k].name,
                        },
                    )
                },
    {
        match registry.find_tool(name) {
            None => {
                let e = BridgeError::ToolNotFound { name: name.clone() };
                self.state = InvocationState::Failed { error: e.to_protocol_error() };
                Err(())
            },
            Some(i) => {
                match validate_arguments(&registry.tools[i].input_schema, args) {
                    Ok(()) => {
                        self.state = InvocationState::Validated { tool: i };
                        Ok(i)
                    },
                    Err(e) => {
                        proof {
                            assert(has_tool(registry.tools@, name@));
                        }
                        self.state = InvocationState::Failed { error: e.to_protocol_error() };
                        Err(())
                    },
                }
            },
        }
    }

    /// Hands the validated invocation to its handler.
    pub fn begin(&mut self)
        requires
            old(self).state() is Validated,
        ensures
            final(self).state() matches InvocationState::Executing { tool } && tool == old(
                self,
            ).state()->Validated_tool,
    {
        let tool = match &self.state {
            InvocationState::Validated { tool } => *tool,
            _ => vstd::pervasive::unreached(),
        };
        self.state = InvocationState::Executing { tool };
    }

    /// Wraps the handler's structured response as exactly one content
    /// item in a successful envelope.
    pub fn succeed(&mut self, response: JsonValue)
        requires
            old(self).state() is Executing,
        ensures
            final(self).state() matches InvocationState::Succeeded { result }
                && result.content@.len() == 1 && result.content@[0] == ContentItem::Json(response),
    {
        self.state = InvocationState::Succeeded { result: ToolResult::single(response) };
    }

    /// Converts any handler-side failure — configuration lookup, the
    /// downstream call, response parsing — to the terminal protocol
    /// error, never silently swallowed.
    pub fn fail(&mut self, e: &BridgeError)
        requires
            old(self).state() is Executing,
        ensures
            final(self).state() matches InvocationState::Failed { error } && error.code@
                == "INTERNAL_ERROR"@ && error.message@ == message_of(*e),
    {
        self.state = InvocationState::Failed { error: e.to_protocol_error() };
    }

    /// Converts a failure whose protocol error a handler has already
    /// shaped — its operation-specific message included — to the
    /// terminal state, unchanged.
    pub fn fail_with(&mut self, error: ToolError)
        requires
            old(self).state() is Executing,
        ensures
            final(self).state() matches InvocationState::Failed { error: e } && e == error,
    {
        self.state = InvocationState::Failed { error };
    }

    /// The terminal outcome, as the transport reports it.
    pub fn outcome(self) -> (r: Result<ToolResult, ToolError>)
        requires
            self.state() is Succeeded || self.state() is Failed,
        ensures
            self.state() matches InvocationState::Succeeded { result } ==> r matches Ok(out)
                && out == result,
            self.state() matches InvocationState::Failed { error } ==> r matches Err(out) && out
                == error,
    {
        match self.state {
            InvocationState::Succeeded { result } => Ok(result),
            InvocationState::Failed { error } => Err(error),
            _ => vstd::pervasive::unreached(),
        }
    }
}

} // verus!
