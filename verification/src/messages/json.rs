//! Validators for the messages of the protocol, each a fixed schema over a
//! JSON document.
//!
//! Every validator reads the message as an object and then runs its checks
//! in the order of its schema. The first check that fails ends the
//! validation, and its failure is the outcome.

use vstd::prelude::*;
use crate::messages::{
    AlicaMessageJsonValidator,
    AlicaMessageValidationResult,
    Outcome,
    outcome_of,
};
use crate::messages::json::laws::has_distinct_names;
use crate::messages::json::schema::{Check, FieldRule, Schema, message_outcome, rules_outcome};

pub mod document;
pub mod helper;
pub mod laws;
pub mod schema;
pub mod validation;

verus! {

/// Validates the report of an engine's status.
pub struct AlicaEngineInfoValidator {}

impl AlicaEngineInfoValidator {
    pub fn new() -> (validator: Self)
        ensures
            validator == (AlicaEngineInfoValidator {  }),
    {
        AlicaEngineInfoValidator {  }
    }

    /// The fields that the message must hold, in the order in which they
    /// are checked.
    pub open spec fn schema() -> Schema {
        seq![
            FieldRule { name: "senderId"@, check: Check::by(&CapnZeroIdValidator {  }) },
            FieldRule { name: "masterPlan"@, check: Check::Text },
            FieldRule { name: "currentPlan"@, check: Check::Text },
            FieldRule { name: "currentState"@, check: Check::Text },
            FieldRule { name: "currentRole"@, check: Check::Text },
            FieldRule { name: "currentTask"@, check: Check::Text },
            FieldRule { name: "agentIdsWithMe"@, check: Check::each_by(&CapnZeroIdValidator {  }) },
        ]
    }

    /// No two fields of the schema have the same name.
    pub proof fn lemma_names_are_distinct()
        ensures
            has_distinct_names(Self::schema()),
    {
        reveal_strlit("senderId");
        reveal_strlit("masterPlan");
        reveal_strlit("currentPlan");
        reveal_strlit("currentState");
        reveal_strlit("currentRole");
        reveal_strlit("currentTask");
        reveal_strlit("agentIdsWithMe");
        assert("senderId"@.len() != "masterPlan"@.len());
        assert("senderId"@.len() != "currentPlan"@.len());
        assert("senderId"@.len() != "currentState"@.len());
        assert("senderId"@.len() != "currentRole"@.len());
        assert("senderId"@.len() != "currentTask"@.len());
        assert("senderId"@.len() != "agentIdsWithMe"@.len());
        assert("masterPlan"@.len() != "currentPlan"@.len());
        assert("masterPlan"@.len() != "currentState"@.len());
        assert("masterPlan"@.len() != "currentRole"@.len());
        assert("masterPlan"@.len() != "currentTask"@.len());
        assert("masterPlan"@.len() != "agentIdsWithMe"@.len());
        assert("currentPlan"@.len() != "currentState"@.len());
        assert("currentPlan"@[7] != "currentRole"@[7]);
        assert("currentPlan"@[7] != "currentTask"@[7]);
        assert("currentPlan"@.len() != "agentIdsWithMe"@.len());
        assert("currentState"@.len() != "currentRole"@.len());
        assert("currentState"@.len() != "currentTask"@.len());
        assert("currentState"@.len() != "agentIdsWithMe"@.len());
        assert("currentRole"@[7] != "currentTask"@[7]);
        assert("currentRole"@.len() != "agentIdsWithMe"@.len());
        assert("currentTask"@.len() != "agentIdsWithMe"@.len());
        let schema = Self::schema();
        assert forall|i: int, j: int|
            0 <= i < schema.len() && 0 <= j < schema.len() && i != j implies schema[i].name
            != schema[j].name by {}
    }
}

impl AlicaMessageJsonValidator for AlicaEngineInfoValidator {
    open spec fn is_specified(&self) -> bool {
        true
    }

    open spec fn outcome(&self, message: Seq<u8>) -> Outcome {
        message_outcome(Self::schema(), message)
    }

    fn validate(&self, message: &[u8]) -> (result: AlicaMessageValidationResult)
        ensures
            outcome_of(result) == message_outcome(Self::schema(), message@),
    {
        proof {
            reveal_with_fuel(rules_outcome, 8);
        }
        let engine_info_root = helper::parse_object(message)?;
        validation::validate_capnzero_id_field(&engine_info_root, "senderId")?;
        validation::validate_string_field(&engine_info_root, "masterPlan")?;
        validation::validate_string_field(&engine_info_root, "currentPlan")?;
        validation::validate_string_field(&engine_info_root, "currentState")?;
        validation::validate_string_field(&engine_info_root, "currentRole")?;
        validation::validate_string_field(&engine_info_root, "currentTask")?;
        validation::validate_list_field_with_complex_components(
            &engine_info_root,
            "agentIdsWithMe",
            &CapnZeroIdValidator::new(),
        )?;
        Ok(())
    }
}

/// Validates the announcement of who holds the authority over an allocation.
pub struct AllocationAuthorityInfoValidator {}

impl AllocationAuthorityInfoValidator {
    pub fn new() -> (validator: Self)
        ensures
            validator == (AllocationAuthorityInfoValidator {  }),
    {
        AllocationAuthorityInfoValidator {  }
    }

    /// The fields that the message must hold, in the order in which they
    /// are checked.
    pub open spec fn schema() -> Schema {
        seq![
            FieldRule { name: "senderId"@, check: Check::by(&CapnZeroIdValidator {  }) },
            FieldRule { name: "planId"@, check: Check::Integer },
            FieldRule { name: "parentState"@, check: Check::Integer },
            FieldRule { name: "planType"@, check: Check::Integer },
            FieldRule { name: "authority"@, check: Check::by(&CapnZeroIdValidator {  }) },
            FieldRule { name: "entrypointRobots"@, check: Check::each_by(&EntryPointRobotValidator {  }) },
        ]
    }

    /// No two fields of the schema have the same name.
    pub proof fn lemma_names_are_distinct()
        ensures
            has_distinct_names(Self::schema()),
    {
        reveal_strlit("senderId");
        reveal_strlit("planId");
        reveal_strlit("parentState");
        reveal_strlit("planType");
        reveal_strlit("authority");
        reveal_strlit("entrypointRobots");
        assert("senderId"@.len() != "planId"@.len());
        assert("senderId"@.len() != "parentState"@.len());
        assert("senderId"@[0] != "planType"@[0]);
        assert("senderId"@.len() != "authority"@.len());
        assert("senderId"@.len() != "entrypointRobots"@.len());
        assert("planId"@.len() != "parentState"@.len());
        assert("planId"@.len() != "planType"@.len());
        assert("planId"@.len() != "authority"@.len());
        assert("planId"@.len() != "entrypointRobots"@.len());
        assert("parentState"@.len() != "planType"@.len());
        assert("parentState"@.len() != "authority"@.len());
        assert("parentState"@.len() != "entrypointRobots"@.len());
        assert("planType"@.len() != "authority"@.len());
        assert("planType"@.len() != "entrypointRobots"@.len());
        assert("authority"@.len() != "entrypointRobots"@.len());
        let schema = Self::schema();
        assert forall|i: int, j: int|
            0 <= i < schema.len() && 0 <= j < schema.len() && i != j implies schema[i].name
            != schema[j].name by {}
    }
}

impl AlicaMessageJsonValidator for AllocationAuthorityInfoValidator {
    open spec fn is_specified(&self) -> bool {
        true
    }

    open spec fn outcome(&self, message: Seq<u8>) -> Outcome {
        message_outcome(Self::schema(), message)
    }

    fn validate(&self, message: &[u8]) -> (result: AlicaMessageValidationResult)
        ensures
            outcome_of(result) == message_outcome(Self::schema(), message@),
    {
        proof {
            reveal_with_fuel(rules_outcome, 7);
        }
        let allocation_authority_info_root = helper::parse_object(message)?;
        validation::validate_capnzero_id_field(&allocation_authority_info_root, "senderId")?;
        validation::validate_integer_field(&allocation_authority_info_root, "planId")?;
        validation::validate_integer_field(&allocation_authority_info_root, "parentState")?;
        validation::validate_integer_field(&allocation_authority_info_root, "planType")?;
        validation::validate_capnzero_id_field(&allocation_authority_info_root, "authority")?;
        validation::validate_list_field_with_complex_components(
            &allocation_authority_info_root,
            "entrypointRobots",
            &EntryPointRobotValidator::new(),
        )?;
        Ok(())
    }
}

/// Validates the binding of robots to an entry point.
pub struct EntryPointRobotValidator {}

impl EntryPointRobotValidator {
    pub fn new() -> (validator: Self)
        ensures
            validator == (EntryPointRobotValidator {  }),
    {
        EntryPointRobotValidator {  }
    }

    /// The fields that the message must hold, in the order in which they
    /// are checked.
    pub open spec fn schema() -> Schema {
        seq![
            FieldRule { name: "entrypoint"@, check: Check::Integer },
            FieldRule { name: "robots"@, check: Check::each_by(&CapnZeroIdValidator {  }) },
        ]
    }

    /// No two fields of the schema have the same name.
    pub proof fn lemma_names_are_distinct()
        ensures
            has_distinct_names(Self::schema()),
    {
        reveal_strlit("entrypoint");
        reveal_strlit("robots");
        assert("entrypoint"@.len() != "robots"@.len());
        let schema = Self::schema();
        assert forall|i: int, j: int|
            0 <= i < schema.len() && 0 <= j < schema.len() && i != j implies schema[i].name
            != schema[j].name by {}
    }
}

impl AlicaMessageJsonValidator for EntryPointRobotValidator {
    open spec fn is_specified(&self) -> bool {
        true
    }

    open spec fn outcome(&self, message: Seq<u8>) -> Outcome {
        message_outcome(Self::schema(), message)
    }

    fn validate(&self, message: &[u8]) -> (result: AlicaMessageValidationResult)
        ensures
            outcome_of(result) == message_outcome(Self::schema(), message@),
    {
        proof {
            reveal_with_fuel(rules_outcome, 3);
        }
        let entry_point_robot = helper::parse_object(message)?;
        validation::validate_integer_field(&entry_point_robot, "entrypoint")?;
        validation::validate_list_field_with_complex_components(
            &entry_point_robot,
            "robots",
            &CapnZeroIdValidator::new(),
        )?;
        Ok(())
    }
}

/// Validates the status of a plan tree.
pub struct PlanTreeInfoValidator {}

impl PlanTreeInfoValidator {
    pub fn new() -> (validator: Self)
        ensures
            validator == (PlanTreeInfoValidator {  }),
    {
        PlanTreeInfoValidator {  }
    }

    /// The fields that the message must hold, in the order in which they
    /// are checked.
    pub open spec fn schema() -> Schema {
        seq![
            FieldRule { name: "senderId"@, check: Check::by(&CapnZeroIdValidator {  }) },
            FieldRule { name: "stateIds"@, check: Check::IntegerList },
            FieldRule { name: "succeededEps"@, check: Check::IntegerList },
        ]
    }

    /// No two fields of the schema have the same name.
    pub proof fn lemma_names_are_distinct()
        ensures
            has_distinct_names(Self::schema()),
    {
        reveal_strlit("senderId");
        reveal_strlit("stateIds");
        reveal_strlit("succeededEps");
        assert("senderId"@[1] != "stateIds"@[1]);
        assert("senderId"@.len() != "succeededEps"@.len());
        assert("stateIds"@.len() != "succeededEps"@.len());
        let schema = Self::schema();
        assert forall|i: int, j: int|
            0 <= i < schema.len() && 0 <= j < schema.len() && i != j implies schema[i].name
            != schema[j].name by {}
    }
}

impl AlicaMessageJsonValidator for PlanTreeInfoValidator {
    open spec fn is_specified(&self) -> bool {
        true
    }

    open spec fn outcome(&self, message: Seq<u8>) -> Outcome {
        message_outcome(Self::schema(), message)
    }

    fn validate(&self, message: &[u8]) -> (result: AlicaMessageValidationResult)
        ensures
            outcome_of(result) == message_outcome(Self::schema(), message@),
    {
        proof {
            reveal_with_fuel(rules_outcome, 4);
        }
        let plan_tree_info = helper::parse_object(message)?;
        validation::validate_capnzero_id_field(&plan_tree_info, "senderId")?;
        validation::validate_integer_list_field(&plan_tree_info, "stateIds")?;
        validation::validate_integer_list_field(&plan_tree_info, "succeededEps")?;
        Ok(())
    }
}

/// Validates the switch of an agent to another role.
pub struct RoleSwitchValidator {}

impl RoleSwitchValidator {
    pub fn new() -> (validator: Self)
        ensures
            validator == (RoleSwitchValidator {  }),
    {
        RoleSwitchValidator {  }
    }

    /// The fields that the message must hold, in the order in which they
    /// are checked.
    pub open spec fn schema() -> Schema {
        seq![
            FieldRule { name: "senderId"@, check: Check::by(&CapnZeroIdValidator {  }) },
            FieldRule { name: "roleId"@, check: Check::Integer },
        ]
    }

    /// No two fields of the schema have the same name.
    pub proof fn lemma_names_are_distinct()
        ensures
            has_distinct_names(Self::schema()),
    {
        reveal_strlit("senderId");
        reveal_strlit("roleId");
        assert("senderId"@.len() != "roleId"@.len());
        let schema = Self::schema();
        assert forall|i: int, j: int|
            0 <= i < schema.len() && 0 <= j < schema.len() && i != j implies schema[i].name
            != schema[j].name by {}
    }
}

impl AlicaMessageJsonValidator for RoleSwitchValidator {
    open spec fn is_specified(&self) -> bool {
        true
    }

    open spec fn outcome(&self, message: Seq<u8>) -> Outcome {
        message_outcome(Self::schema(), message)
    }

    fn validate(&self, message: &[u8]) -> (result: AlicaMessageValidationResult)
        ensures
            outcome_of(result) == message_outcome(Self::schema(), message@),
    {
        proof {
            reveal_with_fuel(rules_outcome, 3);
        }
        let role_switch = helper::parse_object(message)?;
        validation::validate_capnzero_id_field(&role_switch, "senderId")?;
        validation::validate_integer_field(&role_switch, "roleId")?;
        Ok(())
    }
}

/// Validates the result of a solver.
pub struct SolverResultValidator {}

impl SolverResultValidator {
    pub fn new() -> (validator: Self)
        ensures
            validator == (SolverResultValidator {  }),
    {
        SolverResultValidator {  }
    }

    /// The fields that the message must hold, in the order in which they
    /// are checked.
    pub open spec fn schema() -> Schema {
        seq![
            FieldRule { name: "senderId"@, check: Check::by(&CapnZeroIdValidator {  }) },
            FieldRule { name: "vars"@, check: Check::each_by(&SolverVarValidator {  }) },
        ]
    }

    /// No two fields of the schema have the same name.
    pub proof fn lemma_names_are_distinct()
        ensures
            has_distinct_names(Self::schema()),
    {
        reveal_strlit("senderId");
        reveal_strlit("vars");
        assert("senderId"@.len() != "vars"@.len());
        let schema = Self::schema();
        assert forall|i: int, j: int|
            0 <= i < schema.len() && 0 <= j < schema.len() && i != j implies schema[i].name
            != schema[j].name by {}
    }
}

impl AlicaMessageJsonValidator for SolverResultValidator {
    open spec fn is_specified(&self) -> bool {
        true
    }

    open spec fn outcome(&self, message: Seq<u8>) -> Outcome {
        message_outcome(Self::schema(), message)
    }

    fn validate(&self, message: &[u8]) -> (result: AlicaMessageValidationResult)
        ensures
            outcome_of(result) == message_outcome(Self::schema(), message@),
    {
        proof {
            reveal_with_fuel(rules_outcome, 3);
        }
        let solver_result = helper::parse_object(message)?;
        validation::validate_capnzero_id_field(&solver_result, "senderId")?;
        validation::validate_list_field_with_complex_components(
            &solver_result,
            "vars",
            &SolverVarValidator::new(),
        )?;
        Ok(())
    }
}

/// Validates one variable of a solver's result.
pub struct SolverVarValidator {}

impl SolverVarValidator {
    pub fn new() -> (validator: Self)
        ensures
            validator == (SolverVarValidator {  }),
    {
        SolverVarValidator {  }
    }

    /// The fields that the message must hold, in the order in which they
    /// are checked.
    pub open spec fn schema() -> Schema {
        seq![
            FieldRule { name: "id"@, check: Check::Integer },
            FieldRule { name: "value"@, check: Check::IntegerList },
        ]
    }

    /// No two fields of the schema have the same name.
    pub proof fn lemma_names_are_distinct()
        ensures
            has_distinct_names(Self::schema()),
    {
        reveal_strlit("id");
        reveal_strlit("value");
        assert("id"@.len() != "value"@.len());
        let schema = Self::schema();
        assert forall|i: int, j: int|
            0 <= i < schema.len() && 0 <= j < schema.len() && i != j implies schema[i].name
            != schema[j].name by {}
    }
}

impl AlicaMessageJsonValidator for SolverVarValidator {
    open spec fn is_specified(&self) -> bool {
        true
    }

    open spec fn outcome(&self, message: Seq<u8>) -> Outcome {
        message_outcome(Self::schema(), message)
    }

    fn validate(&self, message: &[u8]) -> (result: AlicaMessageValidationResult)
        ensures
            outcome_of(result) == message_outcome(Self::schema(), message@),
    {
        proof {
            reveal_with_fuel(rules_outcome, 3);
        }
        let solver_var = helper::parse_object(message)?;
        validation::validate_integer_field(&solver_var, "id")?;
        validation::validate_integer_list_field(&solver_var, "value")?;
        Ok(())
    }
}

/// Validates the notice that an agent is ready to synchronize.
pub struct SyncReadyValidator {}

impl SyncReadyValidator {
    pub fn new() -> (validator: Self)
        ensures
            validator == (SyncReadyValidator {  }),
    {
        SyncReadyValidator {  }
    }

    /// The fields that the message must hold, in the order in which they
    /// are checked.
    pub open spec fn schema() -> Schema {
        seq![
            FieldRule { name: "senderId"@, check: Check::by(&CapnZeroIdValidator {  }) },
            FieldRule { name: "synchronisationId"@, check: Check::Integer },
        ]
    }

    /// No two fields of the schema have the same name.
    pub proof fn lemma_names_are_distinct()
        ensures
            has_distinct_names(Self::schema()),
    {
        reveal_strlit("senderId");
        reveal_strlit("synchronisationId");
        assert("senderId"@.len() != "synchronisationId"@.len());
        let schema = Self::schema();
        assert forall|i: int, j: int|
            0 <= i < schema.len() && 0 <= j < schema.len() && i != j implies schema[i].name
            != schema[j].name by {}
    }
}

impl AlicaMessageJsonValidator for SyncReadyValidator {
    open spec fn is_specified(&self) -> bool {
        true
    }

    open spec fn outcome(&self, message: Seq<u8>) -> Outcome {
        message_outcome(Self::schema(), message)
    }

    fn validate(&self, message: &[u8]) -> (result: AlicaMessageValidationResult)
        ensures
            outcome_of(result) == message_outcome(Self::schema(), message@),
    {
        proof {
            reveal_with_fuel(rules_outcome, 3);
        }
        let sync_ready = helper::parse_object(message)?;
        validation::validate_capnzero_id_field(&sync_ready, "senderId")?;
        validation::validate_integer_field(&sync_ready, "synchronisationId")?;
        Ok(())
    }
}

/// Validates the exchange of synchronization data.
pub struct SyncTalkValidator {}

impl SyncTalkValidator {
    pub fn new() -> (validator: Self)
        ensures
            validator == (SyncTalkValidator {  }),
    {
        SyncTalkValidator {  }
    }

    /// The fields that the message must hold, in the order in which they
    /// are checked.
    pub open spec fn schema() -> Schema {
        seq![
            FieldRule { name: "senderId"@, check: Check::by(&CapnZeroIdValidator {  }) },
            FieldRule { name: "syncData"@, check: Check::each_by(&SyncDataValidator {  }) },
        ]
    }

    /// No two fields of the schema have the same name.
    pub proof fn lemma_names_are_distinct()
        ensures
            has_distinct_names(Self::schema()),
    {
        reveal_strlit("senderId");
        reveal_strlit("syncData");
        assert("senderId"@[1] != "syncData"@[1]);
        let schema = Self::schema();
        assert forall|i: int, j: int|
            0 <= i < schema.len() && 0 <= j < schema.len() && i != j implies schema[i].name
            != schema[j].name by {}
    }
}

impl AlicaMessageJsonValidator for SyncTalkValidator {
    open spec fn is_specified(&self) -> bool {
        true
    }

    open spec fn outcome(&self, message: Seq<u8>) -> Outcome {
        message_outcome(Self::schema(), message)
    }

    fn validate(&self, message: &[u8]) -> (result: AlicaMessageValidationResult)
        ensures
            outcome_of(result) == message_outcome(Self::schema(), message@),
    {
        proof {
            reveal_with_fuel(rules_outcome, 3);
        }
        let sync_talk = helper::parse_object(message)?;
        validation::validate_capnzero_id_field(&sync_talk, "senderId")?;
        validation::validate_list_field_with_complex_components(
            &sync_talk,
            "syncData",
            &SyncDataValidator::new(),
        )?;
        Ok(())
    }
}

/// Validates one record of synchronization data.
pub struct SyncDataValidator {}

impl SyncDataValidator {
    pub fn new() -> (validator: Self)
        ensures
            validator == (SyncDataValidator {  }),
    {
        SyncDataValidator {  }
    }

    /// The fields that the message must hold, in the order in which they
    /// are checked.
    pub open spec fn schema() -> Schema {
        seq![
            FieldRule { name: "robotId"@, check: Check::by(&CapnZeroIdValidator {  }) },
            FieldRule { name: "transitionId"@, check: Check::Integer },
            FieldRule { name: "transitionHolds"@, check: Check::Boolean },
            FieldRule { name: "ack"@, check: Check::Boolean },
        ]
    }

    /// No two fields of the schema have the same name.
    pub proof fn lemma_names_are_distinct()
        ensures
            has_distinct_names(Self::schema()),
    {
        reveal_strlit("robotId");
        reveal_strlit("transitionId");
        reveal_strlit("transitionHolds");
        reveal_strlit("ack");
        assert("robotId"@.len() != "transitionId"@.len());
        assert("robotId"@.len() != "transitionHolds"@.len());
        assert("robotId"@.len() != "ack"@.len());
        assert("transitionId"@.len() != "transitionHolds"@.len());
        assert("transitionId"@.len() != "ack"@.len());
        assert("transitionHolds"@.len() != "ack"@.len());
        let schema = Self::schema();
        assert forall|i: int, j: int|
            0 <= i < schema.len() && 0 <= j < schema.len() && i != j implies schema[i].name
            != schema[j].name by {}
    }
}

impl AlicaMessageJsonValidator for SyncDataValidator {
    open spec fn is_specified(&self) -> bool {
        true
    }

    open spec fn outcome(&self, message: Seq<u8>) -> Outcome {
        message_outcome(Self::schema(), message)
    }

    fn validate(&self, message: &[u8]) -> (result: AlicaMessageValidationResult)
        ensures
            outcome_of(result) == message_outcome(Self::schema(), message@),
    {
        proof {
            reveal_with_fuel(rules_outcome, 5);
        }
        let sync_data = helper::parse_object(message)?;
        validation::validate_capnzero_id_field(&sync_data, "robotId")?;
        validation::validate_integer_field(&sync_data, "transitionId")?;
        validation::validate_boolean_field(&sync_data, "transitionHolds")?;
        validation::validate_boolean_field(&sync_data, "ack")?;
        Ok(())
    }
}

/// Validates the identifier of an agent or entity: a numeric kind and a string value.
pub struct CapnZeroIdValidator {}

impl CapnZeroIdValidator {
    pub fn new() -> (validator: Self)
        ensures
            validator == (CapnZeroIdValidator {  }),
    {
        CapnZeroIdValidator {  }
    }

    /// The fields that the message must hold, in the order in which they
    /// are checked.
    pub open spec fn schema() -> Schema {
        seq![
            FieldRule { name: "kind"@, check: Check::Integer },
            FieldRule { name: "value"@, check: Check::Text },
        ]
    }

    /// No two fields of the schema have the same name.
    pub proof fn lemma_names_are_distinct()
        ensures
            has_distinct_names(Self::schema()),
    {
        reveal_strlit("kind");
        reveal_strlit("value");
        assert("kind"@.len() != "value"@.len());
        let schema = Self::schema();
        assert forall|i: int, j: int|
            0 <= i < schema.len() && 0 <= j < schema.len() && i != j implies schema[i].name
            != schema[j].name by {}
    }
}

impl AlicaMessageJsonValidator for CapnZeroIdValidator {
    open spec fn is_specified(&self) -> bool {
        true
    }

    open spec fn outcome(&self, message: Seq<u8>) -> Outcome {
        message_outcome(Self::schema(), message)
    }

    fn validate(&self, message: &[u8]) -> (result: AlicaMessageValidationResult)
        ensures
            outcome_of(result) == message_outcome(Self::schema(), message@),
    {
        proof {
            reveal_with_fuel(rules_outcome, 3);
        }
        let capnzero_id_root = helper::parse_object(message)?;
        validation::validate_integer_field(&capnzero_id_root, "kind")?;
        validation::validate_string_field(&capnzero_id_root, "value")?;
        Ok(())
    }
}

} // verus!
