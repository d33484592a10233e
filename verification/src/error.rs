//! The failures that the operations of the library report.

use vstd::prelude::*;
use vstd::string::*;

verus! {

/// A failure of one of the library's operations.
///
/// Every variant carries text: the address for the two address variants, the
/// layer's name for `LayerNotFound`, and the cause of the failure for the
/// others.
#[derive(Debug)]
#[non_exhaustive]
pub enum Error {
    /// The address exists but is not a directory.
    InvalidModelAddress(String),
    /// A layer could not be added: the request was not valid, or the write failed.
    LayerAdditionFailed(String),
    /// A layer could not be removed: it does not exist, or the write failed.
    LayerRemovalFailed(String),
    /// The address does not exist.
    ModelAddressNotFound(String),
    /// The repository, or its default variant and iteration, could not be created.
    ModelCreationFailed(String),
    /// A handle could not be opened.
    ModelInstantiationFailed(String),
    /// A variant could not be derived.
    BranchCreationFailed(String),
    /// The handle could not be moved to another variant.
    BranchSwitchFailed(String),
    /// An activation function's parameters are not acceptable.
    InvalidActivationParameter(String),
    /// No layer of the given name is in the iteration that was asked.
    LayerNotFound(String),
}

impl Clone for Error {
    fn clone(&self) -> (r: Error)
        ensures
            r == *self,
    {
        match self {
            Error::InvalidModelAddress(s) => Error::InvalidModelAddress(s.clone()),
            Error::LayerAdditionFailed(s) => Error::LayerAdditionFailed(s.clone()),
            Error::LayerRemovalFailed(s) => Error::LayerRemovalFailed(s.clone()),
            Error::ModelAddressNotFound(s) => Error::ModelAddressNotFound(s.clone()),
            Error::ModelCreationFailed(s) => Error::ModelCreationFailed(s.clone()),
            Error::ModelInstantiationFailed(s) => Error::ModelInstantiationFailed(s.clone()),
            Error::BranchCreationFailed(s) => Error::BranchCreationFailed(s.clone()),
            Error::BranchSwitchFailed(s) => Error::BranchSwitchFailed(s.clone()),
            Error::InvalidActivationParameter(s) => Error::InvalidActivationParameter(s.clone()),
            Error::LayerNotFound(s) => Error::LayerNotFound(s.clone()),
        }
    }
}

/// The operations that write to the store or open it.
#[derive(Clone, Copy, Debug, PartialEq, Eq, Structural)]
pub enum Operation {
    /// Creating a repository with its default variant and iteration.
    Initialise,
    /// Opening a handle.
    Open,
    /// Moving a handle to another variant.
    Switch,
    /// Deriving a variant.
    Derive,
    /// Adding a layer.
    AddLayer,
    /// Removing a layer.
    RemoveLayer,
}

impl Error {
    /// The error that reports a failure of the store during an operation.
    pub open spec fn of_failure(operation: Operation, message: Seq<char>, e: Error) -> bool {
        &&& e.detail() == message
        &&& match operation {
            Operation::Initialise => e is ModelCreationFailed,
            Operation::Open => e is ModelInstantiationFailed,
            Operation::Switch => e is BranchSwitchFailed,
            Operation::Derive => e is BranchCreationFailed,
            Operation::AddLayer => e is LayerAdditionFailed,
            Operation::RemoveLayer => e is LayerRemovalFailed,
        }
    }

    /// Reports a failure of the store during an operation: the error of the
    /// operation's kind, with the store's message as it came.
    pub fn store_failure(operation: Operation, message: String) -> (e: Error)
        ensures
            Error::of_failure(operation, message@, e),
    {
        match operation {
            Operation::Initialise => Error::ModelCreationFailed(message),
            Operation::Open => Error::ModelInstantiationFailed(message),
            Operation::Switch => Error::BranchSwitchFailed(message),
            Operation::Derive => Error::BranchCreationFailed(message),
            Operation::AddLayer => Error::LayerAdditionFailed(message),
            Operation::RemoveLayer => Error::LayerRemovalFailed(message),
        }
    }

    /// What an operation returns once the store has run its statements:
    /// success where the store succeeded, else the failure of the operation's
    /// kind with the store's message.
    pub fn settle(operation: Operation, outcome: Result<(), String>) -> (r: Result<(), Error>)
        ensures
            match outcome {
                Ok(_) => r is Ok,
                Err(message) => r matches Err(e) && Error::of_failure(operation, message@, e),
            },
    {
        match outcome {
            Ok(_) => Ok(()),
            Err(message) => Err(Error::store_failure(operation, message)),
        }
    }

    /// The text that the error carries.
    pub open spec fn detail(self) -> Seq<char> {
        match self {
            Error::InvalidModelAddress(s) => s@,
            Error::LayerAdditionFailed(s) => s@,
            Error::LayerRemovalFailed(s) => s@,
            Error::ModelAddressNotFound(s) => s@,
            Error::ModelCreationFailed(s) => s@,
            Error::ModelInstantiationFailed(s) => s@,
            Error::BranchCreationFailed(s) => s@,
            Error::BranchSwitchFailed(s) => s@,
            Error::InvalidActivationParameter(s) => s@,
            Error::LayerNotFound(s) => s@,
        }
    }

    /// What stands before the carried text in the error's message.
    pub open spec fn prefix(self) -> Seq<char> {
        match self {
            Error::InvalidModelAddress(_) => "The model's address is not a directory: \""@,
            Error::LayerAdditionFailed(_) =>
                "An error occurred when adding a layer to the model: "@,
            Error::LayerRemovalFailed(_) =>
                "An error occurred when removing a layer from the model: "@,
            Error::ModelAddressNotFound(_) =>
                "The model's address does not exist or cannot be accessed: \""@,
            Error::ModelCreationFailed(_) => "An error occurred when creating the model: "@,
            Error::ModelInstantiationFailed(_) =>
                "An error occurred when instantiating the model: "@,
            Error::BranchCreationFailed(_) =>
                "An error occurred when deriving a variant of the model: "@,
            Error::BranchSwitchFailed(_) =>
                "An error occurred when switching the variant of the model: "@,
            Error::InvalidActivationParameter(_) =>
                "The parameters of the activation function are not valid: "@,
            Error::LayerNotFound(_) => "The model has no layer of this name: \""@,
        }
    }

    /// What stands behind the carried text in the error's message.
    pub open spec fn suffix(self) -> Seq<char> {
        match self {
            Error::InvalidModelAddress(_) => "\"."@,
            Error::ModelAddressNotFound(_) => "\"."@,
            Error::LayerNotFound(_) => "\"."@,
            _ => Seq::<char>::empty(),
        }
    }

    /// The message of the error: prefix, carried text, suffix.
    pub open spec fn spec_message(self) -> Seq<char> {
        self.prefix() + self.detail() + self.suffix()
    }

    /// The text that the error carries: an address, a layer's name or a cause.
    pub fn text(&self) -> (s: &str)
        ensures
            s@ == self.detail(),
    {
        match self {
            Error::InvalidModelAddress(s) => s.as_str(),
            Error::LayerAdditionFailed(s) => s.as_str(),
            Error::LayerRemovalFailed(s) => s.as_str(),
            Error::ModelAddressNotFound(s) => s.as_str(),
            Error::ModelCreationFailed(s) => s.as_str(),
            Error::ModelInstantiationFailed(s) => s.as_str(),
            Error::BranchCreationFailed(s) => s.as_str(),
            Error::BranchSwitchFailed(s) => s.as_str(),
            Error::InvalidActivationParameter(s) => s.as_str(),
            Error::LayerNotFound(s) => s.as_str(),
        }
    }

    /// The message of the error, as it is shown to a person.
    pub fn message(&self) -> (s: String)
        ensures
            s@ == self.spec_message(),
    {
        match self {
            Error::InvalidModelAddress(addr) => {
                String::from_str("The model's address is not a directory: \"").concat(
                    addr.as_str(),
                ).concat("\".")
            },
            Error::LayerAdditionFailed(msg) => {
                let s = String::from_str(
                    "An error occurred when adding a layer to the model: ",
                ).concat(msg.as_str());
                assert(s@ =~= self.spec_message());
                s
            },
            Error::LayerRemovalFailed(msg) => {
                let s = String::from_str(
                    "An error occurred when removing a layer from the model: ",
                ).concat(msg.as_str());
                assert(s@ =~= self.spec_message());
                s
            },
            Error::ModelAddressNotFound(addr) => {
                String::from_str(
                    "The model's address does not exist or cannot be accessed: \"",
                ).concat(addr.as_str()).concat("\".")
            },
            Error::ModelCreationFailed(msg) => {
                let s = String::from_str("An error occurred when creating the model: ").concat(
                    msg.as_str(),
                );
                assert(s@ =~= self.spec_message());
                s
            },
            Error::ModelInstantiationFailed(msg) => {
                let s = String::from_str(
                    "An error occurred when instantiating the model: ",
                ).concat(msg.as_str());
                assert(s@ =~= self.spec_message());
                s
            },
            Error::BranchCreationFailed(msg) => {
                let s = String::from_str(
                    "An error occurred when deriving a variant of the model: ",
                ).concat(msg.as_str());
                assert(s@ =~= self.spec_message());
                s
            },
            Error::BranchSwitchFailed(msg) => {
                let s = String::from_str(
                    "An error occurred when switching the variant of the model: ",
                ).concat(msg.as_str());
                assert(s@ =~= self.spec_message());
                s
            },
            Error::InvalidActivationParameter(msg) => {
                let s = String::from_str(
                    "The parameters of the activation function are not valid: ",
                ).concat(msg.as_str());
                assert(s@ =~= self.spec_message());
                s
            },
            Error::LayerNotFound(name) => {
                String::from_str("The model has no layer of this name: \"").concat(
                    name.as_str(),
                ).concat("\".")
            },
        }
    }
}

} // verus!
