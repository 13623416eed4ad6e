//! The names the generated shell API claims, and the checks that keep the
//! app's own types, effect variants and shell handlers off them.
use vstd::prelude::*;

use super::effects::EffectMeta;
use super::error::TypeGenError;
use super::naming::QualifiedTypeName;
use super::shell_handler::{csharp_interface_name_of, protocol_name_of, ShellHandler};
use super::text::{contains_text, same_text};

verus! {

/// Whether `name` is one of the names the generated shell API claims in the
/// root namespace of every generated package.
pub open spec fn is_reserved(name: Seq<char>) -> bool {
    ||| name == "OperationKind"@
    ||| name == "EffectHandler"@
    ||| name == "IEffectHandler"@
    ||| name == "EffectSink"@
    ||| name == "IEffectSink"@
    ||| name == "EffectDispatcher"@
    ||| name == "Core"@
    ||| name == "CoreBridge"@
    ||| name == "ICoreBridge"@
    ||| name == "FfiBridge"@
}

/// Whether `name` is a name the generated shell API claims.
pub fn is_reserved_name(name: &str) -> (b: bool)
    ensures
        b == is_reserved(name@),
{
    same_text(name, "OperationKind") || same_text(name, "EffectHandler") || same_text(
        name,
        "IEffectHandler",
    ) || same_text(name, "EffectSink") || same_text(name, "IEffectSink") || same_text(
        name,
        "EffectDispatcher",
    ) || same_text(name, "Core") || same_text(name, "CoreBridge") || same_text(name, "ICoreBridge")
        || same_text(name, "FfiBridge")
}

pub open spec fn reserved_type_message(name: Seq<char>) -> Seq<char> {
    "`"@ + name
        + "` is generated for the shell API, so a shared type cannot be called that. Rename the type with `#[facet(rename = \"...\")]`."@
}

pub open spec fn operation_kind_variant_message(effect: Seq<char>) -> Seq<char> {
    "effect `"@ + effect
        + "` has a variant called `OperationKind`, which collides with the generated operation kind accessor. Rename the variant."@
}

pub open spec fn duplicate_handler_message(name: Seq<char>) -> Seq<char> {
    "two shell handlers are called `"@ + name + "`. Register each capability's handler once."@
}

pub open spec fn reserved_handler_message(handler: Seq<char>, name: Seq<char>) -> Seq<char> {
    "shell handler `"@ + handler + "` needs the name `"@ + name
        + "`, which is generated for the shell API. Rename the handler."@
}

pub open spec fn claimed_message(registered: Seq<char>, handler: Seq<char>) -> Seq<char> {
    "`"@ + registered + "` is claimed by the `"@ + handler
        + "` shell handler, so a shared type cannot be called that. Rename the type with `#[facet(rename = \"...\")]`."@
}

/// The name of the first key, in order, that is in the root namespace and
/// reserved.
pub open spec fn first_reserved_key(keys: Seq<QualifiedTypeName>) -> Option<Seq<char>>
    decreases keys.len(),
{
    if keys.len() == 0 {
        None
    } else if keys[0].namespace@ is None && is_reserved(keys[0].name@) {
        Some(keys[0].name@)
    } else {
        first_reserved_key(keys.drop_first())
    }
}

/// Whether an effect has a variant whose identifier is `OperationKind`.
pub open spec fn has_operation_kind_variant(effect: EffectMeta) -> bool {
    exists|j: int| 0 <= j < effect.variants@.len() && #[trigger] effect.variants@[j].ident@ == "OperationKind"@
}

/// The name of the first effect, in order, with a variant called
/// `OperationKind`.
pub open spec fn first_colliding_effect(effects: Seq<EffectMeta>) -> Option<Seq<char>>
    decreases effects.len(),
{
    if effects.len() == 0 {
        None
    } else if has_operation_kind_variant(effects[0]) {
        Some(effects[0].effect.name@)
    } else {
        first_colliding_effect(effects.drop_first())
    }
}

/// What is wrong with the registered names and effects, if anything: first a
/// reserved root type name, then an effect variant called `OperationKind`.
pub open spec fn names_problem(keys: Seq<QualifiedTypeName>, effects: Seq<EffectMeta>) -> Option<Seq<char>> {
    match first_reserved_key(keys) {
        Some(name) => Some(reserved_type_message(name)),
        None => match first_colliding_effect(effects) {
            Some(effect) => Some(operation_kind_variant_message(effect)),
            None => None,
        },
    }
}

/// What is wrong with the registered handlers themselves, walking them in
/// order with the names of those already seen: a repeated name, or a name
/// (the handler's own, its protocol's, its C# interface's) the shell API
/// claims.
pub open spec fn handler_problem(handlers: Seq<ShellHandler>, seen: Seq<Seq<char>>) -> Option<Seq<char>>
    decreases handlers.len(),
{
    if handlers.len() == 0 {
        None
    } else {
        let n = handlers[0].name@;
        if seen.contains(n) {
            Some(duplicate_handler_message(n))
        } else if is_reserved(n) {
            Some(reserved_handler_message(n, n))
        } else if is_reserved(protocol_name_of(n)) {
            Some(reserved_handler_message(n, protocol_name_of(n)))
        } else if is_reserved(csharp_interface_name_of(n)) {
            Some(reserved_handler_message(n, csharp_interface_name_of(n)))
        } else {
            handler_problem(handlers.drop_first(), seen.push(n))
        }
    }
}

/// Whether the handler named `handler` claims the type name `name`.
pub open spec fn claims(handler: Seq<char>, name: Seq<char>) -> bool {
    name == handler || name == protocol_name_of(handler) || name == csharp_interface_name_of(handler)
}

/// The first handler, in order, claiming `name`.
pub open spec fn first_claimer(handlers: Seq<ShellHandler>, name: Seq<char>) -> Option<Seq<char>>
    decreases handlers.len(),
{
    if handlers.len() == 0 {
        None
    } else if claims(handlers[0].name@, name) {
        Some(handlers[0].name@)
    } else {
        first_claimer(handlers.drop_first(), name)
    }
}

/// The first root key, in order, some handler claims, with the message
/// naming it and the first handler claiming it.
pub open spec fn claim_problem(keys: Seq<QualifiedTypeName>, handlers: Seq<ShellHandler>) -> Option<Seq<char>>
    decreases keys.len(),
{
    if keys.len() == 0 {
        None
    } else if keys[0].namespace@ is None && first_claimer(handlers, keys[0].name@) is Some {
        Some(claimed_message(keys[0].name@, first_claimer(handlers, keys[0].name@)->Some_0))
    } else {
        claim_problem(keys.drop_first(), handlers)
    }
}

/// What is wrong with the registered shell handlers, if anything.
pub open spec fn shell_handlers_problem(keys: Seq<QualifiedTypeName>, handlers: Seq<ShellHandler>) -> Option<Seq<char>> {
    match handler_problem(handlers, Seq::empty()) {
        Some(m) => Some(m),
        None => claim_problem(keys, handlers),
    }
}

/// Whether `res` reports exactly `problem`: `Ok` when there is none, and a
/// generation error carrying its message when there is one.
pub open spec fn reports(res: Result<(), TypeGenError>, problem: Option<Seq<char>>) -> bool {
    match problem {
        None => res is Ok,
        Some(m) => res matches Err(e) && e.is_generation(m),
    }
}

fn generation(message: String) -> (e: TypeGenError)
    ensures
        e.is_generation(message@),
{
    TypeGenError::Generation(message)
}

/// Rejects registered types and effect variants that would collide with the
/// generated effect handler API.
pub fn validate_names(keys: &Vec<QualifiedTypeName>, effects: &Vec<EffectMeta>) -> (res: Result<(), TypeGenError>)
    ensures
        reports(res, names_problem(keys@, effects@)),
{
    let mut i: usize = 0;
    proof {
        assert(keys@.skip(0) == keys@);
    }
    while i < keys.len()
        invariant
            0 <= i <= keys@.len(),
            first_reserved_key(keys@) == first_reserved_key(keys@.skip(i as int)),
        decreases keys.len() - i,
    {
        proof {
            assert(keys@.skip(i as int).drop_first() == keys@.skip(i + 1));
        }
        let key = &keys[i];
        if key.namespace.is_root() && is_reserved_name(key.name.as_str()) {
            let msg = String::from_str("`").concat(key.name.as_str()).concat(
                "` is generated for the shell API, so a shared type cannot be called that. Rename the type with `#[facet(rename = \"...\")]`.",
            );
            return Err(generation(msg));
        }
        i = i + 1;
    }
    let mut e: usize = 0;
    proof {
        assert(effects@.skip(0) == effects@);
    }
    while e < effects.len()
        invariant
            0 <= e <= effects@.len(),
            first_reserved_key(keys@) is None,
            first_colliding_effect(effects@) == first_colliding_effect(effects@.skip(e as int)),
        decreases effects.len() - e,
    {
        proof {
            assert(effects@.skip(e as int).drop_first() == effects@.skip(e + 1));
        }
        let effect = &effects[e];
        let mut v: usize = 0;
        #[verifier::loop_isolation(false)]
        while v < effect.variants.len()
            invariant
                0 <= v <= effect.variants@.len(),
                forall|j: int| 0 <= j < v ==> #[trigger] effect.variants@[j].ident@ != "OperationKind"@,
            decreases effect.variants.len() - v,
        {
            if same_text(effect.variants[v].ident.as_str(), "OperationKind") {
                proof {
                    assert(effect.variants@[v as int].ident@ == "OperationKind"@);
                    assert(has_operation_kind_variant(effects@[e as int]));
                    assert(effects@.skip(e as int)[0] == effects@[e as int]);
                }
                let msg = String::from_str("effect `").concat(effect.effect.name.as_str()).concat(
                    "` has a variant called `OperationKind`, which collides with the generated operation kind accessor. Rename the variant.",
                );
                return Err(generation(msg));
            }
            v = v + 1;
        }
        e = e + 1;
    }
    Ok(())
}

/// Rejects registered shell handlers whose names would collide: with each
/// other, with the generated shell API, or with a type the app registered.
pub fn validate_shell_handlers(keys: &Vec<QualifiedTypeName>, handlers: &Vec<ShellHandler>) -> (res: Result<(), TypeGenError>)
    ensures
        reports(res, shell_handlers_problem(keys@, handlers@)),
{
    let mut seen: Vec<String> = Vec::new();
    let mut h: usize = 0;
    proof {
        assert(handlers@.skip(0) == handlers@);
        assert(seen@.map_values(|s: String| s@) == Seq::<Seq<char>>::empty());
    }
    while h < handlers.len()
        invariant
            0 <= h <= handlers@.len(),
            handler_problem(handlers@, Seq::empty()) == handler_problem(
                handlers@.skip(h as int),
                seen@.map_values(|s: String| s@),
            ),
        decreases handlers.len() - h,
    {
        proof {
            assert(handlers@.skip(h as int).drop_first() == handlers@.skip(h + 1));
        }
        let handler = &handlers[h];
        let ghost seen_view = seen@.map_values(|s: String| s@);
        if contains_text(&seen, handler.name) {
            proof {
                let i = choose|i: int| 0 <= i < seen@.len() && #[trigger] seen@[i]@ == handler.name@;
                assert(seen_view[i] == handler.name@);
            }
            let msg = String::from_str("two shell handlers are called `").concat(handler.name).concat(
                "`. Register each capability's handler once.",
            );
            return Err(generation(msg));
        }
        proof {
            assert(!seen_view.contains(handler.name@)) by {
                if seen_view.contains(handler.name@) {
                    let i = choose|i: int| 0 <= i < seen_view.len() && seen_view[i] == handler.name@;
                    assert(seen@[i]@ == handler.name@);
                }
            }
        }
        let own = String::from_str(handler.name);
        let protocol = handler.protocol_name();
        let interface = handler.csharp_interface_name();
        let mut claimed: Option<String> = None;
        if is_reserved_name(own.as_str()) {
            claimed = Some(own);
        } else if is_reserved_name(protocol.as_str()) {
            claimed = Some(protocol);
        } else if is_reserved_name(interface.as_str()) {
            claimed = Some(interface);
        }
        match claimed {
            Some(name) => {
                let msg = String::from_str("shell handler `").concat(handler.name).concat(
                    "` needs the name `",
                ).concat(name.as_str()).concat(
                    "`, which is generated for the shell API. Rename the handler.",
                );
                return Err(generation(msg));
            },
            None => {},
        }
        seen.push(String::from_str(handler.name));
        proof {
            assert(seen@.map_values(|s: String| s@) == seen_view.push(handler.name@));
        }
        h = h + 1;
    }
    let mut k: usize = 0;
    proof {
        assert(keys@.skip(0) == keys@);
    }
    while k < keys.len()
        invariant
            0 <= k <= keys@.len(),
            handler_problem(handlers@, Seq::empty()) is None,
            claim_problem(keys@, handlers@) == claim_problem(keys@.skip(k as int), handlers@),
        decreases keys.len() - k,
    {
        proof {
            assert(keys@.skip(k as int).drop_first() == keys@.skip(k + 1));
        }
        let registered = &keys[k];
        if registered.namespace.is_root() {
            let mut j: usize = 0;
            proof {
                assert(handlers@.skip(0) == handlers@);
            }
            #[verifier::loop_isolation(false)]
            while j < handlers.len()
                invariant
                    0 <= j <= handlers@.len(),
                    first_claimer(handlers@, registered.name@) == first_claimer(
                        handlers@.skip(j as int),
                        registered.name@,
                    ),
                decreases handlers.len() - j,
            {
                proof {
                    assert(handlers@.skip(j as int).drop_first() == handlers@.skip(j + 1));
                }
                let handler = &handlers[j];
                let claimed = same_text(registered.name.as_str(), handler.name) || same_text(
                    registered.name.as_str(),
                    handler.protocol_name().as_str(),
                ) || same_text(registered.name.as_str(), handler.csharp_interface_name().as_str());
                if claimed {
                    proof {
                        assert(handlers@.skip(j as int)[0] == handlers@[j as int]);
                        assert(claims(handlers@[j as int].name@, registered.name@));
                        assert(keys@.skip(k as int)[0] == keys@[k as int]);
                    }
                    let msg = String::from_str("`").concat(registered.name.as_str()).concat(
                        "` is claimed by the `",
                    ).concat(handler.name).concat(
                        "` shell handler, so a shared type cannot be called that. Rename the type with `#[facet(rename = \"...\")]`.",
                    );
                    return Err(generation(msg));
                }
                j = j + 1;
            }
        }
        k = k + 1;
    }
    Ok(())
}

/// The checks the registry is held to when it is built: the names check,
/// then the shell handler check. The names the shell API claims are reserved
/// unconditionally, so a registered root type taking one is rejected whether
/// or not an effect was recorded.
pub fn validate_registry(
    keys: &Vec<QualifiedTypeName>,
    effects: &Vec<EffectMeta>,
    handlers: &Vec<ShellHandler>,
) -> (res: Result<(), TypeGenError>)
    ensures
        reports(
            res,
            match names_problem(keys@, effects@) {
                Some(m) => Some(m),
                None => shell_handlers_problem(keys@, handlers@),
            },
        ),
{
    validate_names(keys, effects)?;
    validate_shell_handlers(keys, handlers)
}

} // verus!
