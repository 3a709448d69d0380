use vstd::prelude::*;

use crate::text::{replace_all, replace_all_str};

verus! {

/// Template of the function that runs every registered prefetch or preload
/// handler for a chunk.
pub const CHUNK_PREFETCH_PRELOAD_FUNCTION_TEMPLATE: &'static str =
    "$RUNTIME_FUNCTION$ = function (chunkId) {\n\tObject.keys($RUNTIME_HANDLERS$).map(function (key) {\n\t\t$RUNTIME_HANDLERS$[key](chunkId);\n\t});\n};\n";

pub const RUNTIME_FUNCTION_PLACEHOLDER: &'static str = "$RUNTIME_FUNCTION$";

pub const RUNTIME_HANDLERS_PLACEHOLDER: &'static str = "$RUNTIME_HANDLERS$";

pub const CHUNK_PREFETCH_FUNCTION_PREFIX: &'static str = "webpack/runtime/chunk_prefetch_function/";

/// Runtime support module that defines a chunk prefetch or preload function.
#[derive(Clone, Debug, PartialEq, Eq)]
pub struct ChunkPrefetchPreloadFunctionRuntimeModule {
    id: String,
    runtime_function: String,
    runtime_handlers: String,
}

impl ChunkPrefetchPreloadFunctionRuntimeModule {
    pub closed spec fn spec_id(&self) -> Seq<char> {
        self.id@
    }

    pub closed spec fn spec_runtime_function(&self) -> Seq<char> {
        self.runtime_function@
    }

    pub closed spec fn spec_runtime_handlers(&self) -> Seq<char> {
        self.runtime_handlers@
    }

    /// `runtime_function` and `runtime_handlers` are the names of the global
    /// that receives the function and of the registry of handlers it calls.
    pub fn new(child_type: &str, runtime_function: &str, runtime_handlers: &str) -> (r: Self)
        ensures
            r.spec_id() == CHUNK_PREFETCH_FUNCTION_PREFIX@ + child_type@,
            r.spec_runtime_function() == runtime_function@,
            r.spec_runtime_handlers() == runtime_handlers@,
    {
        ChunkPrefetchPreloadFunctionRuntimeModule {
            id: String::from_str(CHUNK_PREFETCH_FUNCTION_PREFIX).concat(child_type),
            runtime_function: String::from_str(runtime_function),
            runtime_handlers: String::from_str(runtime_handlers),
        }
    }

    pub fn name(&self) -> (r: String)
        ensures
            r@ == self.spec_id(),
    {
        String::from_str(self.id.as_str())
    }

    /// The template with each placeholder replaced by the name it stands for.
    pub fn generate(&self) -> (r: String)
        ensures
            r@ == replace_all(
                replace_all(
                    CHUNK_PREFETCH_PRELOAD_FUNCTION_TEMPLATE@,
                    RUNTIME_FUNCTION_PLACEHOLDER@,
                    self.spec_runtime_function(),
                ),
                RUNTIME_HANDLERS_PLACEHOLDER@,
                self.spec_runtime_handlers(),
            ),
    {
        proof {
            reveal_strlit("$RUNTIME_FUNCTION$");
            reveal_strlit("$RUNTIME_HANDLERS$");
        }
        let with_function = replace_all_str(
            CHUNK_PREFETCH_PRELOAD_FUNCTION_TEMPLATE,
            RUNTIME_FUNCTION_PLACEHOLDER,
            self.runtime_function.as_str(),
        );
        replace_all_str(
            with_function.as_str(),
            RUNTIME_HANDLERS_PLACEHOLDER,
            self.runtime_handlers.as_str(),
        )
    }
}

} // verus!
