//! The supported robot models and the choice among them.

use vstd::prelude::*;
use crate::error::KinematicsError;

verus! {

/// The closed list of supported models of the CRX family. The models share
/// their joint topology and differ in their link lengths and meshes.
#[derive(Clone, Copy, Debug, PartialEq, Eq, Structural)]
pub enum CrxType {
    /// The CRX-5iA.
    Crx5ia,
    /// The CRX-10iA.
    Crx10ia,
}

/// The model that a name selects, if it selects one.
pub open spec fn model_of_name(name: Seq<char>) -> Option<CrxType> {
    if name == "CRX-5iA"@ {
        Some(CrxType::Crx5ia)
    } else if name == "CRX-10iA"@ {
        Some(CrxType::Crx10ia)
    } else {
        None
    }
}

/// The name of each model.
pub open spec fn name_of_model(model: CrxType) -> Seq<char> {
    match model {
        CrxType::Crx5ia => "CRX-5iA"@,
        CrxType::Crx10ia => "CRX-10iA"@,
    }
}

/// One robot of the CRX family: the record of which model it is. The
/// geometry and the meshes of the model are looked up by this choice.
#[derive(Clone, Copy, Debug, PartialEq, Eq, Structural)]
pub struct Crx {
    crx_type: CrxType,
}

impl Crx {
    /// The model of this robot.
    pub closed spec fn model(self) -> CrxType {
        self.crx_type
    }

    /// A CRX-5iA.
    pub fn new_5ia() -> (robot: Crx)
        ensures
            robot.model() == CrxType::Crx5ia,
    {
        Crx { crx_type: CrxType::Crx5ia }
    }

    /// A CRX-10iA.
    pub fn new_10ia() -> (robot: Crx)
        ensures
            robot.model() == CrxType::Crx10ia,
    {
        Crx { crx_type: CrxType::Crx10ia }
    }

    /// The robot of the given model.
    pub fn of_type(crx_type: CrxType) -> (robot: Crx)
        ensures
            robot.model() == crx_type,
    {
        Crx { crx_type }
    }

    /// Selects a robot by the name of its model. Succeeds exactly on the
    /// names of the supported models; any other name is refused with
    /// `UnknownRobotVariant`.
    pub fn from_model_name(name: &str) -> (selected: Result<Crx, KinematicsError>)
        ensures
            match selected {
                Ok(robot) => model_of_name(name@) == Some(robot.model()),
                Err(e) => model_of_name(name@).is_none() && e
                    == KinematicsError::UnknownRobotVariant,
            },
    {
        let given = name.to_owned();
        if given == "CRX-5iA".to_owned() {
            Ok(Crx { crx_type: CrxType::Crx5ia })
        } else if given == "CRX-10iA".to_owned() {
            Ok(Crx { crx_type: CrxType::Crx10ia })
        } else {
            Err(KinematicsError::UnknownRobotVariant)
        }
    }

    /// The model of this robot.
    pub fn crx_type(&self) -> (crx_type: CrxType)
        ensures
            crx_type == self.model(),
    {
        self.crx_type
    }

    /// The name of the model of this robot.
    pub fn model_name(&self) -> (name: &'static str)
        ensures
            name@ == name_of_model(self.model()),
    {
        match self.crx_type {
            CrxType::Crx5ia => "CRX-5iA",
            CrxType::Crx10ia => "CRX-10iA",
        }
    }
}

/// Each model is selected by its own name, and by no other model's.
pub proof fn lemma_name_selects_model(model: CrxType)
    ensures
        model_of_name(name_of_model(model)) == Some(model),
{
    reveal_strlit("CRX-5iA");
    reveal_strlit("CRX-10iA");
    assert("CRX-5iA"@.len() != "CRX-10iA"@.len());
}

/// A name selects a model only if it is that model's name.
pub proof fn lemma_model_has_name(name: Seq<char>, model: CrxType)
    requires
        model_of_name(name) == Some(model),
    ensures
        name == name_of_model(model),
{
}

} // verus!
