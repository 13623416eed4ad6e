//! What the effect handler plugin adds to a generated package's imports.
use vstd::prelude::*;

use super::effects::EffectMeta;
use super::plugins::{has_request, has_request_spec, serializes_output, serializes_output_spec};
use super::text::texts;

verus! {

/// The TypeScript import of the bincode serializer from `path`.
pub open spec fn serializer_import(path: Seq<char>) -> Seq<char> {
    "import { BincodeSerializer } from \""@ + path + "\";"@
}

/// What the effect handler plugin imports in TypeScript: the serializer,
/// when the dispatcher serializes an output.
pub open spec fn handler_typescript_imports(serializes_output: bool, path: Seq<char>) -> Seq<Seq<char>> {
    if serializes_output {
        seq![serializer_import(path)]
    } else {
        Seq::empty()
    }
}

/// The facts the effect handler plugin's imports depend on.
#[derive(Debug)]
pub struct EffectHandlerPlugin {
    pub any_effect: bool,
    pub serializes_output: bool,
    pub has_request: bool,
}

impl EffectHandlerPlugin {
    /// The plugin for the registered effects `effects`.
    pub fn new(effects: &Vec<EffectMeta>) -> (p: Self)
        ensures
            p.any_effect == (effects@.len() > 0),
            p.serializes_output == serializes_output_spec(effects@),
            p.has_request == has_request_spec(effects@),
    {
        EffectHandlerPlugin {
            any_effect: effects.len() > 0,
            serializes_output: serializes_output(effects),
            has_request: has_request(effects),
        }
    }

    /// TypeScript: the serializer, when the dispatcher serializes an output.
    pub fn typescript_imports(&self, bincode_path: &str) -> (res: Vec<String>)
        ensures
            texts(res@) == handler_typescript_imports(self.serializes_output, bincode_path@),
    {
        let mut res: Vec<String> = Vec::new();
        if self.serializes_output {
            res.push(String::from_str("import { BincodeSerializer } from \"").concat(bincode_path).concat("\";"));
        }
        assert(texts(res@) =~= if self.serializes_output {
            seq!["import { BincodeSerializer } from \""@ + bincode_path@ + "\";"@]
        } else {
            Seq::empty()
        });
        res
    }

    /// C#: `System` whenever an effect is registered, and
    /// `System.Threading.Tasks` when the handler has an asynchronous method.
    pub fn csharp_imports(&self) -> (res: Vec<String>)
        ensures
            texts(res@) == if !self.any_effect {
                Seq::empty()
            } else if self.has_request {
                seq!["using System;"@, "using System.Threading.Tasks;"@]
            } else {
                seq!["using System;"@]
            },
    {
        let mut res: Vec<String> = Vec::new();
        if self.any_effect {
            res.push(String::from_str("using System;"));
            if self.has_request {
                res.push(String::from_str("using System.Threading.Tasks;"));
            }
        }
        assert(texts(res@) =~= if !self.any_effect {
            Seq::empty()
        } else if self.has_request {
            seq!["using System;"@, "using System.Threading.Tasks;"@]
        } else {
            seq!["using System;"@]
        });
        res
    }
}

} // verus!
