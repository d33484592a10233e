//! The handle through which a caller works on a repository: an address and a
//! cursor, the variant and the iteration that the handle reads and writes.
//!
//! A handle owns no catalogue. Each operation takes the catalogue of the
//! repository, decides, and names the statements that are to be run in the
//! store as one transaction; several handles may work on one catalogue, each
//! with its own cursor.

use vstd::prelude::*;
use vstd::string::*;
use crate::activation::Activation;
use crate::error::Error;
use crate::layer::{Layer, LayerDescriptor, LayerDescriptorView};
use crate::repository::Repository;
use crate::repository::{add_layer_complaint, add_layer_statements, with_layer};
use crate::repository::{cursor_statements, description, initial_catalogue, session_statements};
use crate::repository::{derive_complaint, derive_statements, derived};
use crate::repository::{has_branch, is_latest, latest, well_formed};
use crate::repository::{remove_layer_complaint, remove_layer_statements, without_layer};
use crate::scalar::Scalar;
use crate::statement::{Statement, StatementView};
use crate::storage::{IsolationLevel, StoreOptions};

verus! {

/// What was found at an address.
#[derive(Clone, Copy, Debug, PartialEq, Eq, Structural)]
pub enum AddressStatus {
    /// Nothing is there.
    Missing,
    /// Something is there that is not a directory.
    NotADirectory,
    /// A directory is there.
    Directory,
}

/// What initialising a repository consists of.
#[derive(Debug)]
pub struct Bootstrap {
    /// The configuration with which the engine is opened.
    pub options: StoreOptions,
    /// The statements that define the default variant and its iteration.
    pub statements: Vec<Statement>,
    /// The catalogue of the new repository.
    pub repository: Repository,
}

/// The statements that define the default variant, `main`, and its
/// iteration, `prime`.
pub open spec fn bootstrap_statements() -> Seq<StatementView> {
    seq![
        StatementView::DefineNamespace { name: "main"@ },
        StatementView::UseNamespace { name: "main"@ },
        StatementView::DefineDatabase { name: "prime"@ },
    ]
}

/// Prepares a repository at an address.
///
/// Fails with `ModelAddressNotFound` where nothing is at the address, and with
/// `InvalidModelAddress` where what is there is not a directory; both carry
/// the address, and nothing is then to be opened or run. At a directory the
/// result holds the engine's configuration for that address, the statements
/// that define `main` and `prime`, and the catalogue that holds the two.
pub fn init(address: &str, status: AddressStatus) -> (r: Result<Bootstrap, Error>)
    ensures
        match status {
            AddressStatus::Missing => r matches Err(Error::ModelAddressNotFound(a)) && a@
                == address@,
            AddressStatus::NotADirectory => r matches Err(Error::InvalidModelAddress(a)) && a@
                == address@,
            AddressStatus::Directory => r matches Ok(b) && b.options.configured_for(address@)
                && b.options.isolation_level == IsolationLevel::SnapshotIsolation
                && b.statements.deep_view() == bootstrap_statements() && b.repository.wf()
                && b.repository@ == initial_catalogue(),
        },
{
    match status {
        AddressStatus::Missing => Err(Error::ModelAddressNotFound(String::from_str(address))),
        AddressStatus::NotADirectory => Err(
            Error::InvalidModelAddress(String::from_str(address)),
        ),
        AddressStatus::Directory => {
            let mut statements: Vec<Statement> = Vec::new();
            statements.push(Statement::DefineNamespace { name: String::from_str("main") });
            statements.push(Statement::UseNamespace { name: String::from_str("main") });
            statements.push(Statement::DefineDatabase { name: String::from_str("prime") });
            assert(statements.deep_view() =~= bootstrap_statements());
            Ok(
                Bootstrap {
                    options: StoreOptions::new(address),
                    statements,
                    repository: Repository::new(),
                },
            )
        },
    }
}

/// In the catalogue of a repository that was just initialised, `main` is a
/// variant and `prime` its current iteration: a handle that is opened on it
/// stands on `main` and `prime`.
pub proof fn lemma_initial_cursor()
    ensures
        well_formed(initial_catalogue()),
        latest(initial_catalogue(), "main"@) == Some(0int),
        initial_catalogue()[0].iteration == "prime"@,
{
    let c = initial_catalogue();
    assert(c[0].branch == "main"@);
    assert(is_latest(c, "main"@, 0));
    crate::repository::lemma_latest_is_exact(c, "main"@, 0);
}

/// A handle on a repository.
#[derive(Debug)]
pub struct Model {
    address: String,
    branch: String,
    iteration: String,
}

/// What a `Model` holds: the address of its repository and its cursor.
pub struct ModelView {
    pub address: Seq<char>,
    pub branch: Seq<char>,
    pub iteration: Seq<char>,
}

impl View for Model {
    type V = ModelView;

    closed spec fn view(&self) -> ModelView {
        ModelView { address: self.address@, branch: self.branch@, iteration: self.iteration@ }
    }
}

impl Clone for Model {
    fn clone(&self) -> (r: Model)
        ensures
            r@ == self@,
    {
        Model {
            address: self.address.clone(),
            branch: self.branch.clone(),
            iteration: self.iteration.clone(),
        }
    }
}

impl Model {
    /// The description of a layer, as `add_layer` takes it.
    pub open spec fn request(
        class: Layer,
        name: Seq<char>,
        shape: Seq<usize>,
        activation: Option<Activation>,
        dropout: Option<Scalar>,
    ) -> LayerDescriptorView {
        LayerDescriptorView { name, class, shape, activation, dropout }
    }

    /// Opens a handle on the repository at an address.
    ///
    /// Fails with `ModelAddressNotFound` where nothing is at the address, with
    /// `InvalidModelAddress` where what is there is not a directory (both
    /// carry the address), and with `ModelInstantiationFailed` where the
    /// catalogue does not hold the variant `main`. Else the handle stands on
    /// `main` and on its current iteration.
    pub fn new(address: &str, status: AddressStatus, repository: &Repository) -> (r: Result<
        Model,
        Error,
    >)
        ensures
            match status {
                AddressStatus::Missing => r matches Err(Error::ModelAddressNotFound(a)) && a@
                    == address@,
                AddressStatus::NotADirectory => r matches Err(Error::InvalidModelAddress(a)) && a@
                    == address@,
                AddressStatus::Directory => match latest(repository@, "main"@) {
                    Some(s) => r matches Ok(m) && m@ == (ModelView {
                        address: address@,
                        branch: "main"@,
                        iteration: repository@[s].iteration,
                    }),
                    None => r matches Err(Error::ModelInstantiationFailed(t)) && t@
                        == "the repository has no variant main"@,
                },
            },
    {
        match status {
            AddressStatus::Missing => Err(Error::ModelAddressNotFound(String::from_str(address))),
            AddressStatus::NotADirectory => Err(
                Error::InvalidModelAddress(String::from_str(address)),
            ),
            AddressStatus::Directory => match repository.current_iteration("main") {
                Some(iteration) => Ok(
                    Model {
                        address: String::from_str(address),
                        branch: String::from_str("main"),
                        iteration,
                    },
                ),
                None => Err(
                    Error::ModelInstantiationFailed(
                        String::from_str("the repository has no variant main"),
                    ),
                ),
            },
        }
    }

    /// The address of the repository.
    pub fn address(&self) -> (r: Option<&str>)
        ensures
            r matches Some(a) && a@ == self@.address,
    {
        Some(self.address.as_str())
    }

    /// The variant on which the handle stands.
    pub fn branch(&self) -> (r: &str)
        ensures
            r@ == self@.branch,
    {
        self.branch.as_str()
    }

    /// The iteration on which the handle stands: what it reads and writes.
    pub fn iteration(&self) -> (r: &str)
        ensures
            r@ == self@.iteration,
    {
        self.iteration.as_str()
    }

    /// The statements that bind a session to the handle's cursor.
    pub fn session(&self) -> (r: Vec<Statement>)
        ensures
            r.deep_view() == cursor_statements(self@.branch, self@.iteration),
    {
        session_statements(self.branch.as_str(), self.iteration.as_str())
    }

    /// The name of the current iteration of the handle's variant: the one
    /// that was created last. `None` where the catalogue does not hold the
    /// variant.
    pub fn current_iteration(&self, repository: &Repository) -> (r: Option<String>)
        ensures
            match latest(repository@, self@.branch) {
                Some(s) => r is Some && r->0@ == repository@[s].iteration,
                None => r is None,
            },
            r is Some <==> has_branch(repository@, self@.branch),
    {
        repository.current_iteration(self.branch.as_str())
    }

    /// Moves the handle to another variant, and to that variant's current
    /// iteration. Fails with `BranchSwitchFailed` where the catalogue does not
    /// hold the variant, and leaves the handle where it stood. No other
    /// handle moves.
    pub fn switch(&mut self, repository: &Repository, variant: &str) -> (r: Result<
        Vec<Statement>,
        Error,
    >)
        ensures
            match latest(repository@, variant@) {
                Some(s) => r matches Ok(statements) && statements.deep_view() == cursor_statements(
                    variant@,
                    repository@[s].iteration,
                ) && final(self)@ == (ModelView {
                    address: old(self)@.address,
                    branch: variant@,
                    iteration: repository@[s].iteration,
                }),
                None => r matches Err(Error::BranchSwitchFailed(t)) && t@
                    == "the variant does not exist"@ && final(self)@ == old(self)@,
            },
    {
        match repository.current_iteration(variant) {
            Some(iteration) => {
                let statements = session_statements(variant, iteration.as_str());
                self.branch = String::from_str(variant);
                self.iteration = iteration;
                Ok(statements)
            },
            None => Err(Error::BranchSwitchFailed(String::from_str("the variant does not exist"))),
        }
    }

    /// Derives a variant from a parent: see `Repository::derive`. The handle
    /// stays where it stands.
    pub fn derive(&self, repository: &mut Repository, parent: &str, variant: &str) -> (r: Result<
        Vec<Statement>,
        Error,
    >)
        requires
            old(repository).wf(),
        ensures
            final(repository).wf(),
            match derive_complaint(old(repository)@, parent@, variant@) {
                Some(text) => r matches Err(Error::BranchCreationFailed(m)) && m@ == text
                    && final(repository)@ == old(repository)@,
                None => r matches Ok(statements) && statements.deep_view() == derive_statements(
                    old(repository)@,
                    parent@,
                    variant@,
                ) && final(repository)@ == derived(old(repository)@, parent@, variant@),
            },
    {
        repository.derive(parent, variant)
    }

    /// Adds a layer to the iteration on which the handle stands: see
    /// `Repository::add_layer`.
    pub fn add_layer(
        &self,
        repository: &mut Repository,
        class: Layer,
        name: &str,
        shape: Vec<usize>,
        activation: Option<Activation>,
        dropout: Option<Scalar>,
    ) -> (r: Result<Vec<Statement>, Error>)
        requires
            old(repository).wf(),
        ensures
            final(repository).wf(),
            match add_layer_complaint(
                old(repository)@,
                self@.branch,
                self@.iteration,
                Model::request(class, name@, shape@, activation, dropout),
            ) {
                Some(text) => r matches Err(Error::LayerAdditionFailed(m)) && m@ == text
                    && final(repository)@ == old(repository)@,
                None => r matches Ok(statements) && statements.deep_view() == add_layer_statements(
                    self@.branch,
                    self@.iteration,
                    Model::request(class, name@, shape@, activation, dropout),
                ) && final(repository)@ == with_layer(
                    old(repository)@,
                    self@.branch,
                    self@.iteration,
                    Model::request(class, name@, shape@, activation, dropout),
                ),
            },
    {
        let descriptor = LayerDescriptor {
            name: String::from_str(name),
            class,
            shape,
            activation,
            dropout,
        };
        repository.add_layer(self.branch.as_str(), self.iteration.as_str(), descriptor)
    }

    /// Removes the layer of a name from the iteration on which the handle
    /// stands: see `Repository::remove_layer`. The class is not consulted: a
    /// name stands for one layer.
    #[allow(unused_variables)]
    pub fn remove_layer(&self, repository: &mut Repository, class: Layer, name: &str) -> (r:
        Result<Vec<Statement>, Error>)
        requires
            old(repository).wf(),
        ensures
            final(repository).wf(),
            match remove_layer_complaint(old(repository)@, self@.branch, self@.iteration, name@) {
                Some(text) => r matches Err(Error::LayerRemovalFailed(m)) && m@ == text
                    && final(repository)@ == old(repository)@,
                None => r matches Ok(statements) && statements.deep_view()
                    == remove_layer_statements(self@.branch, self@.iteration, name@)
                    && final(repository)@ == without_layer(
                    old(repository)@,
                    self@.branch,
                    self@.iteration,
                    name@,
                ),
            },
    {
        repository.remove_layer(self.branch.as_str(), self.iteration.as_str(), name)
    }

    /// Describes the layer of a name in the iteration on which the handle
    /// stands. Fails with `LayerNotFound` and the name where there is no such
    /// layer. The catalogue stays as it is.
    pub fn describe_layer(&self, repository: &Repository, name: &str) -> (r: Result<
        LayerDescriptor,
        Error,
    >)
        requires
            repository.wf(),
        ensures
            match description(repository@, self@.branch, self@.iteration, name@) {
                Some(d) => r matches Ok(found) && found@ == d,
                None => r matches Err(Error::LayerNotFound(m)) && m@ == name@,
            },
    {
        repository.describe_layer(self.branch.as_str(), self.iteration.as_str(), name)
    }
}

} // verus!
