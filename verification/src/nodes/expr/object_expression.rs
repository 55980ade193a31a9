use vstd::prelude::*;

use crate::entity::dep::EntityDepNode;
use crate::transformer::Transformer;

verus! {

/// The kind of an object literal property.
#[derive(Clone, Copy, Debug, PartialEq, Eq, Structural)]
pub enum PropertyKind {
    Init,
    Getter,
    Setter,
}

/// What transforming the parts of one object literal property gave.
#[derive(Clone, Copy, PartialEq, Eq, Structural)]
pub enum ObjectPropertyInput {
    /// A `key: value` property or accessor: whether its value survived being
    /// transformed with the object's own need for a value, whether that
    /// surviving value is a function expression, and whether its key
    /// survives when no value is needed (a computed key with an effect).
    Property { kind: PropertyKind, value_kept: bool, value_is_function: bool, key_kept: bool },
    /// A spread `...argument`: the spread's node, and whether its argument
    /// survived being transformed with `spread_need_value`.
    Spread { node: EntityDepNode, argument_kept: bool },
}

/// What becomes of one object literal property.
#[derive(Clone, Copy, Debug, PartialEq, Eq, Structural)]
pub enum PropertyAction {
    /// Kept with its transformed key and value; a setter whose value is a
    /// function expression also gets its parameters patched.
    Keep { patch_setter_params: bool },
    /// The key is kept for its effect; the value becomes an unused
    /// placeholder.
    KeepKeyOnly,
    /// The spread is kept as it is.
    KeepSpread,
    /// The argument is kept for its effect only; an unused value is spread.
    KeepSpreadForEffect,
    /// The property is dropped.
    Drop,
}

/// Whether a spread's argument must keep its value: when the object's value
/// is needed, or when the spread itself was referred.
pub open spec fn spread_needs_value(referred: Set<EntityDepNode>, need_val: bool, node: EntityDepNode) -> bool {
    need_val || referred.contains(node)
}

/// What becomes of property `p` of an object whose value is needed when
/// `need_val` holds.
pub open spec fn property_action(
    referred: Set<EntityDepNode>,
    need_val: bool,
    p: ObjectPropertyInput,
) -> PropertyAction {
    match p {
        ObjectPropertyInput::Property { kind, value_kept, value_is_function, key_kept } => {
            if value_kept {
                PropertyAction::Keep { patch_setter_params: kind == PropertyKind::Setter && value_is_function }
            } else if key_kept {
                PropertyAction::KeepKeyOnly
            } else {
                PropertyAction::Drop
            }
        },
        ObjectPropertyInput::Spread { node, argument_kept } => {
            if !argument_kept {
                PropertyAction::Drop
            } else if spread_needs_value(referred, need_val, node) {
                PropertyAction::KeepSpread
            } else {
                PropertyAction::KeepSpreadForEffect
            }
        },
    }
}

/// The object literal disappears: its value is not needed and no property
/// is kept.
pub open spec fn object_removed(
    referred: Set<EntityDepNode>,
    need_val: bool,
    properties: Seq<ObjectPropertyInput>,
) -> bool {
    !need_val && forall|i: int|
        0 <= i < properties.len() ==> property_action(referred, need_val, #[trigger] properties[i])
            == PropertyAction::Drop
}

/// Nothing of property `p` survived its transformation: neither its value
/// nor its key, nor a spread's argument.
pub open spec fn nothing_survives(p: ObjectPropertyInput) -> bool {
    match p {
        ObjectPropertyInput::Property { value_kept, key_kept, .. } => !value_kept && !key_kept,
        ObjectPropertyInput::Spread { argument_kept, .. } => !argument_kept,
    }
}

/// An object literal is removed exactly when its value is not needed and no
/// part of any property survived: a key kept for its effect, a kept value or
/// a kept spread argument all keep the literal.
pub proof fn law_removed_only_when_nothing_survives(
    referred: Set<EntityDepNode>,
    need_val: bool,
    properties: Seq<ObjectPropertyInput>,
)
    ensures
        object_removed(referred, need_val, properties) <==> (!need_val && forall|i: int|
            0 <= i < properties.len() ==> nothing_survives(#[trigger] properties[i])),
{
    if object_removed(referred, need_val, properties) {
        assert forall|i: int| 0 <= i < properties.len() implies nothing_survives(
            #[trigger] properties[i],
        ) by {
            assert(property_action(referred, need_val, properties[i]) == PropertyAction::Drop);
        }
    }
    if !need_val && forall|i: int|
        0 <= i < properties.len() ==> nothing_survives(#[trigger] properties[i]) {
        assert forall|i: int| 0 <= i < properties.len() implies property_action(
            referred,
            need_val,
            #[trigger] properties[i],
        ) == PropertyAction::Drop by {
            assert(nothing_survives(properties[i]));
        }
    }
}

/// A property is dropped exactly when nothing of it survived; a key whose
/// value was dropped but which survived is kept on its own.
pub proof fn law_drop_exactly_when_nothing_survives(
    referred: Set<EntityDepNode>,
    need_val: bool,
    p: ObjectPropertyInput,
)
    ensures
        (property_action(referred, need_val, p) == PropertyAction::Drop) <==> nothing_survives(p),
        p matches ObjectPropertyInput::Property { value_kept, key_kept, .. } && !value_kept
            && key_kept ==> property_action(referred, need_val, p) == PropertyAction::KeepKeyOnly,
{
}

/// Only setters get their parameters patched: a kept property is patched
/// exactly when it is a setter whose value is a function expression, and a
/// getter or a plain property never is.
pub proof fn law_only_setters_patched(
    referred: Set<EntityDepNode>,
    need_val: bool,
    p: ObjectPropertyInput,
)
    ensures
        property_action(referred, need_val, p) == (PropertyAction::Keep { patch_setter_params: true })
            ==> (p matches ObjectPropertyInput::Property { kind, value_is_function, .. } && kind
            == PropertyKind::Setter && value_is_function),
        p matches ObjectPropertyInput::Property { kind, value_kept, value_is_function, .. }
            && value_kept && kind == PropertyKind::Setter && value_is_function ==> property_action(
            referred,
            need_val,
            p,
        ) == (PropertyAction::Keep { patch_setter_params: true }),
        p matches ObjectPropertyInput::Property { kind, value_kept, .. } && value_kept && kind
            != PropertyKind::Setter ==> property_action(referred, need_val, p) == (PropertyAction::Keep {
            patch_setter_params: false,
        }),
{
}

/// An object literal whose value is needed is never removed.
pub proof fn law_needed_object_kept(referred: Set<EntityDepNode>, properties: Seq<ObjectPropertyInput>)
    ensures
        !object_removed(referred, true, properties),
{
}

/// A property whose value survived is kept with it; a spread that was
/// referred and whose argument survived is kept as a spread of its value.
pub proof fn law_surviving_parts_kept(
    referred: Set<EntityDepNode>,
    need_val: bool,
    p: ObjectPropertyInput,
)
    ensures
        p matches ObjectPropertyInput::Property { value_kept, .. } && value_kept ==> property_action(
            referred,
            need_val,
            p,
        ) is Keep,
        p matches ObjectPropertyInput::Spread { node, argument_kept } && argument_kept
            && referred.contains(node) ==> property_action(referred, need_val, p)
            == PropertyAction::KeepSpread,
{
}

/// Referring more never drops more: a property kept with fewer referred
/// nodes is kept with more, and whether the object literal is removed can
/// only change from removed to kept.
pub proof fn law_more_referred_keeps_more(
    fewer: Set<EntityDepNode>,
    more: Set<EntityDepNode>,
    need_val: bool,
    properties: Seq<ObjectPropertyInput>,
)
    requires
        fewer.subset_of(more),
    ensures
        forall|i: int|
            0 <= i < properties.len() && property_action(fewer, need_val, #[trigger] properties[i])
                != PropertyAction::Drop ==> property_action(more, need_val, properties[i])
                != PropertyAction::Drop,
        object_removed(more, need_val, properties) ==> object_removed(fewer, need_val, properties),
{
}

impl Transformer {
    /// Whether a spread's argument is to be transformed as needing a value.
    pub fn spread_need_value(&self, need_val: bool, node: EntityDepNode) -> (r: bool)
        ensures
            r == spread_needs_value(self@, need_val, node),
    {
        need_val || self.is_referred(node)
    }

    /// Decides, property by property, what of an object literal is kept:
    /// `None` when the literal disappears, else one action per property.
    pub fn transform_object_expression(
        &self,
        properties: &Vec<ObjectPropertyInput>,
        need_val: bool,
    ) -> (r: Option<Vec<PropertyAction>>)
        ensures
            r is None <==> object_removed(self@, need_val, properties@),
            r is None ==> !need_val && forall|i: int|
                0 <= i < properties@.len() ==> nothing_survives(#[trigger] properties@[i]),
            r matches Some(actions) ==> actions@.len() == properties@.len() && forall|i: int|
                0 <= i < properties@.len() ==> actions@[i] == property_action(
                    self@,
                    need_val,
                    #[trigger] properties@[i],
                ),
    {
        let mut actions: Vec<PropertyAction> = Vec::new();
        let mut any_kept = false;
        let n = properties.len();
        let mut i: usize = 0;
        while i < n
            invariant
                n == properties@.len(),
                i <= n,
                actions@.len() == i,
                forall|j: int|
                    0 <= j < i ==> actions@[j] == property_action(self@, need_val, #[trigger] properties@[j]),
                any_kept == exists|j: int| 0 <= j < i && #[trigger] actions@[j] != PropertyAction::Drop,
            decreases n - i,
        {
            let action = match properties[i] {
                ObjectPropertyInput::Property { kind, value_kept, value_is_function, key_kept } => {
                    if value_kept {
                        PropertyAction::Keep {
                            patch_setter_params: kind == PropertyKind::Setter && value_is_function,
                        }
                    } else if key_kept {
                        PropertyAction::KeepKeyOnly
                    } else {
                        PropertyAction::Drop
                    }
                },
                ObjectPropertyInput::Spread { node, argument_kept } => {
                    let need_spread = self.spread_need_value(need_val, node);
                    if !argument_kept {
                        PropertyAction::Drop
                    } else if need_spread {
                        PropertyAction::KeepSpread
                    } else {
                        PropertyAction::KeepSpreadForEffect
                    }
                },
            };
            let is_kept = match action {
                PropertyAction::Drop => false,
                _ => true,
            };
            let ghost before = actions@;
            actions.push(action);
            proof {
                if any_kept {
                    let j = choose|j: int| 0 <= j < i && #[trigger] before[j] != PropertyAction::Drop;
                    assert(actions@[j] != PropertyAction::Drop);
                }
                if is_kept {
                    assert(actions@[i as int] != PropertyAction::Drop);
                }
            }
            any_kept = any_kept || is_kept;
            i += 1;
        }
        if !need_val && !any_kept {
            proof {
                law_removed_only_when_nothing_survives(self@, need_val, properties@);
            }
            None
        } else {
            proof {
                if !need_val {
                    let j = choose|j: int| 0 <= j < n && #[trigger] actions@[j] != PropertyAction::Drop;
                    assert(property_action(self@, need_val, properties@[j]) != PropertyAction::Drop);
                }
            }
            Some(actions)
        }
    }
}

} // verus!
