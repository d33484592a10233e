//! The catalogue of a repository: its variants, their iterations, and the
//! layers of each iteration.
//!
//! Every change of the catalogue comes with the statements that make the same
//! change in the store, to be run there as one transaction. A request that is
//! refused leaves the catalogue as it was and names no statement.

use vstd::prelude::*;
use vstd::string::*;
use crate::activation::{Activation, ActivationRecord};
use crate::activation::lemma_round_trip;
use crate::error::Error;
use crate::layer::schema_statements;
use crate::layer::{Layer, LayerDescriptor, LayerDescriptorView};
use crate::scalar::Scalar;
use crate::statement::copy_shape;
use crate::statement::{Statement, StatementView};
use crate::text::same_text;

verus! {

/// An iteration of a variant, as the contracts see it: the variant's name, the
/// iteration's name, and the layers in the order of their creation.
pub struct SnapshotView {
    pub branch: Seq<char>,
    pub iteration: Seq<char>,
    pub layers: Seq<LayerDescriptorView>,
}

/// Whether no two layers have the same name.
pub open spec fn distinct_names(layers: Seq<LayerDescriptorView>) -> bool {
    forall|i: int, j: int| 0 <= i < j < layers.len() ==> layers[i].name != layers[j].name
}

/// Whether two iterations are the same iteration of the same variant.
pub open spec fn same_place(a: SnapshotView, b: SnapshotView) -> bool {
    a.branch == b.branch && a.iteration == b.iteration
}

/// What holds of every catalogue: no iteration stands twice in it, no layer
/// name stands twice in an iteration, and every layer's description is valid.
pub open spec fn well_formed(c: Seq<SnapshotView>) -> bool {
    &&& forall|i: int, j: int| 0 <= i < j < c.len() ==> !same_place(c[i], c[j])
    &&& forall|i: int| 0 <= i < c.len() ==> distinct_names(#[trigger] c[i].layers)
    &&& forall|i: int, j: int|
        0 <= i < c.len() && 0 <= j < c[i].layers.len() ==> (#[trigger] c[i].layers[j]).valid()
}

/// The catalogue of a repository that was initialised and not changed: the
/// variant `main` with the iteration `prime`, without layers.
pub open spec fn initial_catalogue() -> Seq<SnapshotView> {
    seq![
        SnapshotView {
            branch: "main"@,
            iteration: "prime"@,
            layers: Seq::<LayerDescriptorView>::empty(),
        },
    ]
}

/// Where the iteration of a variant stands in the catalogue.
pub open spec fn slot(c: Seq<SnapshotView>, branch: Seq<char>, iteration: Seq<char>) -> Option<
    int,
> {
    if exists|i: int| 0 <= i < c.len() && c[i].branch == branch && c[i].iteration == iteration {
        Some(
            choose|i: int| 0 <= i < c.len() && c[i].branch == branch && c[i].iteration == iteration,
        )
    } else {
        None
    }
}

/// Whether the catalogue holds a variant.
pub open spec fn has_branch(c: Seq<SnapshotView>, branch: Seq<char>) -> bool {
    exists|i: int| 0 <= i < c.len() && c[i].branch == branch
}

/// Whether the iteration at `i` is the one of its variant that was created
/// last.
pub open spec fn is_latest(c: Seq<SnapshotView>, branch: Seq<char>, i: int) -> bool {
    &&& 0 <= i < c.len()
    &&& c[i].branch == branch
    &&& forall|j: int| i < j < c.len() ==> c[j].branch != branch
}

/// Where the current iteration of a variant stands: the one that was created
/// last.
pub open spec fn latest(c: Seq<SnapshotView>, branch: Seq<char>) -> Option<int> {
    if exists|i: int| is_latest(c, branch, i) {
        Some(choose|i: int| is_latest(c, branch, i))
    } else {
        None
    }
}

/// Where the layer of a name stands among the layers of an iteration.
pub open spec fn layer_slot(layers: Seq<LayerDescriptorView>, name: Seq<char>) -> Option<int> {
    if exists|i: int| 0 <= i < layers.len() && layers[i].name == name {
        Some(choose|i: int| 0 <= i < layers.len() && layers[i].name == name)
    } else {
        None
    }
}

/// The layers of an iteration; none where the catalogue has no such
/// iteration.
pub open spec fn layers_of(c: Seq<SnapshotView>, branch: Seq<char>, iteration: Seq<char>) -> Seq<
    LayerDescriptorView,
> {
    match slot(c, branch, iteration) {
        Some(s) => c[s].layers,
        None => Seq::<LayerDescriptorView>::empty(),
    }
}

/// The description of the layer of a name in an iteration, where there is
/// one.
pub open spec fn description(
    c: Seq<SnapshotView>,
    branch: Seq<char>,
    iteration: Seq<char>,
    name: Seq<char>,
) -> Option<LayerDescriptorView> {
    let layers = layers_of(c, branch, iteration);
    match layer_slot(layers, name) {
        Some(k) => Some(layers[k]),
        None => None,
    }
}

/// The statements that bind a session to an iteration of a variant.
pub open spec fn cursor_statements(branch: Seq<char>, iteration: Seq<char>) -> Seq<
    StatementView,
> {
    seq![
        StatementView::UseNamespace { name: branch },
        StatementView::UseDatabase { name: iteration },
    ]
}

/// Why a layer cannot be added to an iteration, in words: what is wrong with
/// its description; else that the iteration does not exist; else that the
/// iteration has a layer of that name. `None` where it can be added.
pub open spec fn add_layer_complaint(
    c: Seq<SnapshotView>,
    branch: Seq<char>,
    iteration: Seq<char>,
    d: LayerDescriptorView,
) -> Option<Seq<char>> {
    if d.complaint() is Some {
        d.complaint()
    } else if slot(c, branch, iteration) is None {
        Some("the iteration does not exist"@)
    } else if layer_slot(layers_of(c, branch, iteration), d.name) is Some {
        Some("a layer of this name exists already"@)
    } else {
        None
    }
}

/// The catalogue with one more layer, the last of its iteration.
pub open spec fn with_layer(
    c: Seq<SnapshotView>,
    branch: Seq<char>,
    iteration: Seq<char>,
    d: LayerDescriptorView,
) -> Seq<SnapshotView> {
    let s = slot(c, branch, iteration)->0;
    c.update(s, SnapshotView { layers: c[s].layers.push(d), ..c[s] })
}

/// The statements that add a layer to an iteration.
pub open spec fn add_layer_statements(
    branch: Seq<char>,
    iteration: Seq<char>,
    d: LayerDescriptorView,
) -> Seq<StatementView> {
    cursor_statements(branch, iteration) + d.statements()
}

/// Why the layer of a name cannot be removed from an iteration, in words:
/// that the iteration does not exist, else that it has no such layer. `None`
/// where it can be removed.
pub open spec fn remove_layer_complaint(
    c: Seq<SnapshotView>,
    branch: Seq<char>,
    iteration: Seq<char>,
    name: Seq<char>,
) -> Option<Seq<char>> {
    if slot(c, branch, iteration) is None {
        Some("the iteration does not exist"@)
    } else if layer_slot(layers_of(c, branch, iteration), name) is None {
        Some("no layer of this name exists"@)
    } else {
        None
    }
}

/// The catalogue without the layer of a name.
pub open spec fn without_layer(
    c: Seq<SnapshotView>,
    branch: Seq<char>,
    iteration: Seq<char>,
    name: Seq<char>,
) -> Seq<SnapshotView> {
    let s = slot(c, branch, iteration)->0;
    let k = layer_slot(c[s].layers, name)->0;
    c.update(s, SnapshotView { layers: c[s].layers.remove(k), ..c[s] })
}

/// The statements that remove the layer of a name from an iteration.
pub open spec fn remove_layer_statements(
    branch: Seq<char>,
    iteration: Seq<char>,
    name: Seq<char>,
) -> Seq<StatementView> {
    cursor_statements(branch, iteration).push(StatementView::RemoveTable { name })
}

/// Why a variant cannot be derived, in words: that the parent does not exist,
/// else that the new variant exists already. `None` where it can be derived.
pub open spec fn derive_complaint(c: Seq<SnapshotView>, parent: Seq<char>, variant: Seq<char>)
    -> Option<Seq<char>> {
    if !has_branch(c, parent) {
        Some("the parent variant does not exist"@)
    } else if has_branch(c, variant) {
        Some("the variant exists already"@)
    } else {
        None
    }
}

/// The catalogue with one more variant: its first iteration, `prime`, holds
/// what the parent's current iteration holds.
pub open spec fn derived(c: Seq<SnapshotView>, parent: Seq<char>, variant: Seq<char>) -> Seq<
    SnapshotView,
> {
    c.push(
        SnapshotView {
            branch: variant,
            iteration: "prime"@,
            layers: c[latest(c, parent)->0].layers,
        },
    )
}

/// The statements that derive a variant: they define it and its first
/// iteration, bind the session to that, and define there every layer of the
/// parent's current iteration.
pub open spec fn derive_statements(c: Seq<SnapshotView>, parent: Seq<char>, variant: Seq<char>)
    -> Seq<StatementView> {
    seq![
        StatementView::DefineNamespace { name: variant },
        StatementView::UseNamespace { name: variant },
        StatementView::DefineDatabase { name: "prime"@ },
        StatementView::UseDatabase { name: "prime"@ },
    ] + schema_statements(c[latest(c, parent)->0].layers)
}

/// A layer as the catalogue keeps it: the activation function as its record.
#[derive(Debug)]
struct LayerRecord {
    name: String,
    class: Layer,
    shape: Vec<usize>,
    activation: Option<ActivationRecord>,
    dropout: Option<Scalar>,
}

impl LayerRecord {
    /// Whether the record of the activation function can be read back.
    spec fn sound(self) -> bool {
        self.activation matches Some(w) ==> Activation::decoding(w@) is Some
    }

    /// The description of the layer.
    spec fn described(self) -> LayerDescriptorView {
        LayerDescriptorView {
            name: self.name@,
            class: self.class,
            shape: self.shape@,
            activation: match self.activation {
                Some(w) => Activation::decoding(w@),
                None => None,
            },
            dropout: self.dropout,
        }
    }

    /// The record of a described layer.
    fn record(d: LayerDescriptor) -> (r: LayerRecord)
        requires
            d@.valid(),
        ensures
            r.sound(),
            r.described() == d@,
    {
        let activation = match &d.activation {
            Some(a) => {
                proof {
                    lemma_round_trip(*a);
                }
                Some(a.to_schema_representation())
            },
            None => None,
        };
        LayerRecord {
            name: d.name,
            class: d.class,
            shape: d.shape,
            activation,
            dropout: d.dropout,
        }
    }

    /// The description of the layer.
    fn describe(&self) -> (d: LayerDescriptor)
        requires
            self.sound(),
        ensures
            d@ == self.described(),
    {
        let activation = match &self.activation {
            Some(w) => match Activation::from_schema_representation(w) {
                Ok(a) => Some(a),
                Err(_) => None,
            },
            None => None,
        };
        LayerDescriptor {
            name: self.name.clone(),
            class: self.class,
            shape: copy_shape(&self.shape),
            activation,
            dropout: self.dropout,
        }
    }

    /// A copy of the record.
    fn duplicate(&self) -> (r: LayerRecord)
        ensures
            r.described() == self.described(),
            r.sound() == self.sound(),
    {
        let activation = match &self.activation {
            Some(w) => Some(w.clone()),
            None => None,
        };
        LayerRecord {
            name: self.name.clone(),
            class: self.class,
            shape: copy_shape(&self.shape),
            activation,
            dropout: self.dropout,
        }
    }
}

/// The descriptions of the layers of some records.
spec fn described_layers(layers: Seq<LayerRecord>) -> Seq<LayerDescriptorView> {
    Seq::new(layers.len(), |i: int| layers[i].described())
}

/// Whether every record can be read back.
spec fn sound_layers(layers: Seq<LayerRecord>) -> bool {
    forall|i: int| 0 <= i < layers.len() ==> (#[trigger] layers[i]).sound()
}

/// An iteration of a variant.
#[derive(Debug)]
struct Snapshot {
    branch: String,
    iteration: String,
    layers: Vec<LayerRecord>,
}

impl Snapshot {
    /// The iteration as the contracts see it.
    spec fn model(self) -> SnapshotView {
        SnapshotView {
            branch: self.branch@,
            iteration: self.iteration@,
            layers: described_layers(self.layers@),
        }
    }

    /// Whether every record of the iteration can be read back.
    spec fn sound(self) -> bool {
        sound_layers(self.layers@)
    }

    /// A copy of the layers.
    fn copy_layers(&self) -> (r: Vec<LayerRecord>)
        ensures
            described_layers(r@) == self.model().layers,
            sound_layers(r@) == self.sound(),
    {
        let mut r: Vec<LayerRecord> = Vec::new();
        let mut i: usize = 0;
        while i < self.layers.len()
            invariant
                i <= self.layers@.len(),
                r@.len() == i,
                forall|j: int|
                    0 <= j < i ==> (#[trigger] r@[j]).described() == self.layers@[j].described()
                        && r@[j].sound() == self.layers@[j].sound(),
            decreases self.layers@.len() - i,
        {
            r.push(self.layers[i].duplicate());
            i = i + 1;
        }
        assert(described_layers(r@) =~= self.model().layers);
        assert(sound_layers(r@) == self.sound()) by {
            if self.sound() {
                assert forall|j: int| 0 <= j < r@.len() implies (#[trigger] r@[j]).sound() by {
                    assert(self.layers@[j].sound());
                }
            }
            if sound_layers(r@) {
                assert forall|j: int| 0 <= j < self.layers@.len() implies (
                #[trigger] self.layers@[j]).sound() by {
                    assert(r@[j].sound());
                }
            }
        }
        r
    }

    /// The statements that define the layers of the iteration.
    fn definition(&self) -> (r: Vec<Statement>)
        requires
            self.sound(),
        ensures
            r.deep_view() == schema_statements(self.model().layers),
    {
        let ghost source = self.model().layers;
        let mut r: Vec<Statement> = Vec::new();
        let mut i: usize = 0;
        proof {
            assert(source.take(0) =~= Seq::<LayerDescriptorView>::empty());
            assert(r.deep_view() =~= schema_statements(source.take(0)));
        }
        while i < self.layers.len()
            invariant
                i <= self.layers@.len(),
                self.sound(),
                source == self.model().layers,
                r.deep_view() == schema_statements(source.take(i as int)),
            decreases self.layers@.len() - i,
        {
            let mut body = self.layers[i].describe().statements();
            let ghost so_far = r.deep_view();
            let ghost more = body.deep_view();
            r.append(&mut body);
            proof {
                let next = source.take(i + 1);
                assert(next.drop_last() =~= source.take(i as int));
                assert(next.last() == source[i as int]);
                assert(r.deep_view() =~= so_far + more);
            }
            i = i + 1;
        }
        proof {
            assert(source.take(source.len() as int) =~= source);
        }
        r
    }

    /// A copy of the iteration.
    fn duplicate(&self) -> (r: Snapshot)
        ensures
            r.model() == self.model(),
            r.sound() == self.sound(),
    {
        Snapshot {
            branch: self.branch.clone(),
            iteration: self.iteration.clone(),
            layers: self.copy_layers(),
        }
    }

    /// Where the layer of a name stands.
    fn position(&self, name: &str) -> (r: Option<usize>)
        requires
            distinct_names(self.model().layers),
        ensures
            match r {
                Some(k) => layer_slot(self.model().layers, name@) == Some(k as int) && k
                    < self.layers@.len(),
                None => layer_slot(self.model().layers, name@) is None,
            },
    {
        let ghost layers = self.model().layers;
        let mut i: usize = 0;
        while i < self.layers.len()
            invariant
                i <= self.layers.len(),
                layers == self.model().layers,
                layers.len() == self.layers@.len(),
                distinct_names(layers),
                forall|j: int| 0 <= j < i ==> layers[j].name != name@,
            decreases self.layers.len() - i,
        {
            if same_text(self.layers[i].name.as_str(), name) {
                proof {
                    assert(layers[i as int].name == name@);
                    lemma_layer_slot_is_exact(layers, i as int);
                }
                return Some(i);
            }
            i = i + 1;
        }
        None
    }
}

/// The catalogue of a repository.
#[derive(Debug)]
pub struct Repository {
    snapshots: Vec<Snapshot>,
}

impl View for Repository {
    type V = Seq<SnapshotView>;

    closed spec fn view(&self) -> Seq<SnapshotView> {
        Seq::new(self.snapshots@.len(), |i: int| self.snapshots@[i].model())
    }
}

impl Clone for Repository {
    fn clone(&self) -> (r: Repository)
        ensures
            r@ == self@,
            r.wf() == self.wf(),
    {
        let mut snapshots: Vec<Snapshot> = Vec::new();
        let mut i: usize = 0;
        while i < self.snapshots.len()
            invariant
                i <= self.snapshots@.len(),
                snapshots@.len() == i,
                forall|j: int|
                    0 <= j < i ==> (#[trigger] snapshots@[j]).model() == self.snapshots@[j].model()
                        && snapshots@[j].sound() == self.snapshots@[j].sound(),
            decreases self.snapshots@.len() - i,
        {
            snapshots.push(self.snapshots[i].duplicate());
            i = i + 1;
        }
        let r = Repository { snapshots };
        proof {
            assert(r@ =~= self@);
            if self.sound() {
                assert forall|j: int| 0 <= j < r.snapshots@.len() implies sound_layers(
                    (#[trigger] r.snapshots@[j]).layers@,
                ) by {
                    assert(self.snapshots@[j].sound());
                }
            }
            if r.sound() {
                assert forall|j: int| 0 <= j < self.snapshots@.len() implies sound_layers(
                    (#[trigger] self.snapshots@[j]).layers@,
                ) by {
                    assert(r.snapshots@[j].sound());
                }
            }
        }
        r
    }
}

/// The statements that bind a session to an iteration of a variant.
pub fn session_statements(branch: &str, iteration: &str) -> (r: Vec<Statement>)
    ensures
        r.deep_view() == cursor_statements(branch@, iteration@),
{
    let mut r: Vec<Statement> = Vec::new();
    r.push(Statement::UseNamespace { name: String::from_str(branch) });
    r.push(Statement::UseDatabase { name: String::from_str(iteration) });
    assert(r.deep_view() =~= cursor_statements(branch@, iteration@));
    r
}

impl Repository {
    /// Whether every record of an activation function in the catalogue can be
    /// read back.
    pub closed spec fn sound(&self) -> bool {
        forall|i: int|
            0 <= i < self.snapshots@.len() ==> sound_layers((#[trigger] self.snapshots@[i]).layers@)
    }

    /// What holds of every catalogue.
    pub open spec fn wf(&self) -> bool {
        well_formed(self@) && self.sound()
    }

    /// The catalogue holds the iterations as they are kept, one for one.
    proof fn lemma_view(&self)
        ensures
            self@.len() == self.snapshots@.len(),
            forall|i: int|
                0 <= i < self.snapshots@.len() ==> #[trigger] self@[i]
                    == self.snapshots@[i].model(),
            forall|i: int|
                0 <= i < self.snapshots@.len() ==> (#[trigger] self@[i]).layers.len()
                    == self.snapshots@[i].layers@.len(),
            self.wf() ==> forall|i: int|
                0 <= i < self.snapshots@.len() ==> distinct_names(
                    (#[trigger] self.snapshots@[i]).model().layers,
                ) && sound_layers(self.snapshots@[i].layers@),
    {
        if self.wf() {
            assert forall|i: int| 0 <= i < self.snapshots@.len() implies distinct_names(
                (#[trigger] self.snapshots@[i]).model().layers,
            ) && sound_layers(self.snapshots@[i].layers@) by {
                assert(distinct_names(self@[i].layers));
            }
        }
    }

    /// The catalogue of a repository that was just initialised: the variant
    /// `main` with the iteration `prime`, without layers.
    pub fn new() -> (r: Repository)
        ensures
            r.wf(),
            r@ == initial_catalogue(),
    {
        let mut snapshots: Vec<Snapshot> = Vec::new();
        snapshots.push(
            Snapshot {
                branch: String::from_str("main"),
                iteration: String::from_str("prime"),
                layers: Vec::new(),
            },
        );
        let r = Repository { snapshots };
        proof {
            assert(r@[0].layers =~= Seq::<LayerDescriptorView>::empty());
            assert(r@ =~= initial_catalogue());
        }
        r
    }

    /// Where the iteration of a variant stands.
    fn find(&self, branch: &str, iteration: &str) -> (r: Option<usize>)
        requires
            self.wf(),
        ensures
            match r {
                Some(s) => slot(self@, branch@, iteration@) == Some(s as int) && s
                    < self.snapshots@.len(),
                None => slot(self@, branch@, iteration@) is None,
            },
    {
        let ghost c = self@;
        let mut i: usize = 0;
        while i < self.snapshots.len()
            invariant
                i <= self.snapshots.len(),
                c == self@,
                c.len() == self.snapshots@.len(),
                well_formed(c),
                forall|j: int|
                    0 <= j < i ==> !(c[j].branch == branch@ && c[j].iteration == iteration@),
            decreases self.snapshots.len() - i,
        {
            if same_text(self.snapshots[i].branch.as_str(), branch) && same_text(
                self.snapshots[i].iteration.as_str(),
                iteration,
            ) {
                proof {
                    let s = i as int;
                    assert(c[s].branch == branch@ && c[s].iteration == iteration@);
                    lemma_slot_is_exact(c, s);
                }
                return Some(i);
            }
            i = i + 1;
        }
        None
    }

    /// Where the current iteration of a variant stands.
    fn resolve(&self, branch: &str) -> (r: Option<usize>)
        ensures
            match r {
                Some(s) => latest(self@, branch@) == Some(s as int) && is_latest(
                    self@,
                    branch@,
                    s as int,
                ) && s < self.snapshots@.len(),
                None => latest(self@, branch@) is None,
            },
            r is Some <==> has_branch(self@, branch@),
    {
        let ghost c = self@;
        let mut i: usize = self.snapshots.len();
        while i > 0
            invariant
                i <= self.snapshots.len(),
                c == self@,
                c.len() == self.snapshots@.len(),
                forall|j: int| i <= j < c.len() ==> c[j].branch != branch@,
            decreases i,
        {
            i = i - 1;
            if same_text(self.snapshots[i].branch.as_str(), branch) {
                proof {
                    let s = i as int;
                    assert(is_latest(c, branch@, s));
                    let k = latest(c, branch@)->0;
                    assert(is_latest(c, branch@, k));
                    assert(k == s);
                }
                return Some(i);
            }
        }
        proof {
            assert forall|k: int| !is_latest(c, branch@, k) by {}
        }
        None
    }

    /// Whether the catalogue holds a variant.
    pub fn has_branch(&self, branch: &str) -> (b: bool)
        ensures
            b == has_branch(self@, branch@),
    {
        self.resolve(branch).is_some()
    }

    /// The name of the current iteration of a variant: the one that was
    /// created last. `None` where the catalogue does not hold the variant.
    pub fn current_iteration(&self, branch: &str) -> (r: Option<String>)
        ensures
            match latest(self@, branch@) {
                Some(s) => r is Some && r->0@ == self@[s].iteration && is_latest(
                    self@,
                    branch@,
                    s,
                ),
                None => r is None,
            },
            r is Some <==> has_branch(self@, branch@),
    {
        proof {
            self.lemma_view();
        }
        match self.resolve(branch) {
            Some(s) => {
                let name = self.snapshots[s].iteration.clone();
                assert(name@ == self@[s as int].iteration);
                Some(name)
            },
            None => None,
        }
    }

    /// Adds a layer to an iteration of a variant.
    ///
    /// The layer is refused, with `LayerAdditionFailed` and the cause, where
    /// its description breaks a rule, where the iteration does not exist, and
    /// where the iteration has a layer of that name. Else it becomes the last
    /// layer of the iteration, and the statements that define it are
    /// returned.
    pub fn add_layer(&mut self, branch: &str, iteration: &str, descriptor: LayerDescriptor) -> (r:
        Result<Vec<Statement>, Error>)
        requires
            old(self).wf(),
        ensures
            final(self).wf(),
            match add_layer_complaint(old(self)@, branch@, iteration@, descriptor@) {
                Some(text) => r matches Err(Error::LayerAdditionFailed(m)) && m@ == text
                    && final(self)@ == old(self)@,
                None => r matches Ok(statements) && statements.deep_view() == add_layer_statements(
                    branch@,
                    iteration@,
                    descriptor@,
                ) && final(self)@ == with_layer(old(self)@, branch@, iteration@, descriptor@),
            },
    {
        match descriptor.check() {
            Some(text) => {
                return Err(Error::LayerAdditionFailed(String::from_str(text)));
            },
            None => {},
        }
        let s = match self.find(branch, iteration) {
            Some(s) => s,
            None => {
                return Err(
                    Error::LayerAdditionFailed(String::from_str("the iteration does not exist")),
                );
            },
        };
        proof {
            self.lemma_view();
        }
        if self.snapshots[s].position(descriptor.name.as_str()).is_some() {
            return Err(
                Error::LayerAdditionFailed(String::from_str("a layer of this name exists already")),
            );
        }
        let mut statements = session_statements(branch, iteration);
        let mut body = descriptor.statements();
        let ghost head = statements.deep_view();
        let ghost tail = body.deep_view();
        statements.append(&mut body);
        assert(statements.deep_view() =~= head + tail);
        let ghost d = descriptor@;
        let record = LayerRecord::record(descriptor);
        self.snapshots[s].layers.push(record);
        proof {
            let c = old(self)@;
            let n = with_layer(c, branch@, iteration@, d);
            let k = s as int;
            old(self).lemma_view();
            self.lemma_view();
            assert(self@.len() == n.len());
            assert forall|i: int| 0 <= i < n.len() implies self@[i] == n[i] by {
                if i == k {
                    assert(self@[i].layers =~= c[k].layers.push(d));
                } else {
                    assert(self.snapshots@[i] == old(self).snapshots@[i]);
                }
            }
            assert(self@ =~= n);
            lemma_with_layer_is_well_formed(c, branch@, iteration@, d);
            assert forall|i: int| 0 <= i < self.snapshots@.len() implies sound_layers(
                (#[trigger] self.snapshots@[i]).layers@,
            ) by {
                if i == k {
                    let before = old(self).snapshots@[k].layers@;
                    assert(sound_layers(before));
                    assert forall|j: int| 0 <= j < self.snapshots@[k].layers@.len() implies (
                    #[trigger] self.snapshots@[k].layers@[j]).sound() by {
                        if j < before.len() {
                            assert(before[j].sound());
                        }
                    }
                } else {
                    assert(self.snapshots@[i] == old(self).snapshots@[i]);
                }
            }
        }
        Ok(statements)
    }

    /// Removes the layer of a name from an iteration of a variant.
    ///
    /// Fails with `LayerRemovalFailed` and the cause where the iteration does
    /// not exist, and where it has no layer of that name. Else the layer
    /// leaves the iteration, and the statements that remove it are returned.
    pub fn remove_layer(&mut self, branch: &str, iteration: &str, name: &str) -> (r: Result<
        Vec<Statement>,
        Error,
    >)
        requires
            old(self).wf(),
        ensures
            final(self).wf(),
            match remove_layer_complaint(old(self)@, branch@, iteration@, name@) {
                Some(text) => r matches Err(Error::LayerRemovalFailed(m)) && m@ == text
                    && final(self)@ == old(self)@,
                None => r matches Ok(statements) && statements.deep_view()
                    == remove_layer_statements(branch@, iteration@, name@) && final(self)@
                    == without_layer(old(self)@, branch@, iteration@, name@),
            },
    {
        let s = match self.find(branch, iteration) {
            Some(s) => s,
            None => {
                return Err(
                    Error::LayerRemovalFailed(String::from_str("the iteration does not exist")),
                );
            },
        };
        proof {
            self.lemma_view();
        }
        let k = match self.snapshots[s].position(name) {
            Some(k) => k,
            None => {
                return Err(
                    Error::LayerRemovalFailed(String::from_str("no layer of this name exists")),
                );
            },
        };
        let mut statements = session_statements(branch, iteration);
        let ghost head = statements.deep_view();
        statements.push(Statement::RemoveTable { name: String::from_str(name) });
        assert(statements.deep_view() =~= head.push(StatementView::RemoveTable { name: name@ }));
        self.snapshots[s].layers.remove(k);
        proof {
            let c = old(self)@;
            let n = without_layer(c, branch@, iteration@, name@);
            let si = s as int;
            old(self).lemma_view();
            self.lemma_view();
            assert(self@.len() == n.len());
            assert forall|i: int| 0 <= i < n.len() implies self@[i] == n[i] by {
                if i == si {
                    assert(self@[i].layers =~= c[si].layers.remove(k as int));
                } else {
                    assert(self.snapshots@[i] == old(self).snapshots@[i]);
                }
            }
            assert(self@ =~= n);
            lemma_without_layer_is_well_formed(c, branch@, iteration@, name@);
            assert forall|i: int| 0 <= i < self.snapshots@.len() implies sound_layers(
                (#[trigger] self.snapshots@[i]).layers@,
            ) by {
                if i == si {
                    let before = old(self).snapshots@[si].layers@;
                    assert(sound_layers(before));
                    assert forall|j: int| 0 <= j < self.snapshots@[si].layers@.len() implies (
                    #[trigger] self.snapshots@[si].layers@[j]).sound() by {
                        if j < k {
                            assert(before[j].sound());
                        } else {
                            assert(before[j + 1].sound());
                        }
                    }
                } else {
                    assert(self.snapshots@[i] == old(self).snapshots@[i]);
                }
            }
        }
        Ok(statements)
    }

    /// Describes the layer of a name in an iteration of a variant. Fails with
    /// `LayerNotFound` and the name where there is no such layer.
    pub fn describe_layer(&self, branch: &str, iteration: &str, name: &str) -> (r: Result<
        LayerDescriptor,
        Error,
    >)
        requires
            self.wf(),
        ensures
            match description(self@, branch@, iteration@, name@) {
                Some(d) => r matches Ok(found) && found@ == d,
                None => r matches Err(Error::LayerNotFound(m)) && m@ == name@,
            },
    {
        let s = match self.find(branch, iteration) {
            Some(s) => s,
            None => {
                return Err(Error::LayerNotFound(String::from_str(name)));
            },
        };
        proof {
            self.lemma_view();
        }
        match self.snapshots[s].position(name) {
            Some(k) => {
                assert(sound_layers(self.snapshots@[s as int].layers@));
                Ok(self.snapshots[s].layers[k].describe())
            },
            None => Err(Error::LayerNotFound(String::from_str(name))),
        }
    }

    /// Derives a variant from a parent.
    ///
    /// Fails with `BranchCreationFailed` and the cause where the parent does
    /// not exist, and where the new variant exists already. Else the new
    /// variant enters the catalogue with one iteration, `prime`, that holds a
    /// copy of the layers of the parent's current iteration, and the
    /// statements that define it there are returned.
    pub fn derive(&mut self, parent: &str, variant: &str) -> (r: Result<Vec<Statement>, Error>)
        requires
            old(self).wf(),
        ensures
            final(self).wf(),
            match derive_complaint(old(self)@, parent@, variant@) {
                Some(text) => r matches Err(Error::BranchCreationFailed(m)) && m@ == text
                    && final(self)@ == old(self)@,
                None => r matches Ok(statements) && statements.deep_view() == derive_statements(
                    old(self)@,
                    parent@,
                    variant@,
                ) && final(self)@ == derived(old(self)@, parent@, variant@),
            },
    {
        let p = match self.resolve(parent) {
            Some(p) => p,
            None => {
                return Err(
                    Error::BranchCreationFailed(
                        String::from_str("the parent variant does not exist"),
                    ),
                );
            },
        };
        if self.resolve(variant).is_some() {
            return Err(
                Error::BranchCreationFailed(String::from_str("the variant exists already")),
            );
        }
        proof {
            self.lemma_view();
        }
        let mut statements: Vec<Statement> = Vec::new();
        statements.push(Statement::DefineNamespace { name: String::from_str(variant) });
        statements.push(Statement::UseNamespace { name: String::from_str(variant) });
        statements.push(Statement::DefineDatabase { name: String::from_str("prime") });
        statements.push(Statement::UseDatabase { name: String::from_str("prime") });
        let ghost head = statements.deep_view();
        let mut body = self.snapshots[p].definition();
        let ghost tail = body.deep_view();
        statements.append(&mut body);
        assert(statements.deep_view() =~= head + tail);
        let layers = self.snapshots[p].copy_layers();
        self.snapshots.push(
            Snapshot {
                branch: String::from_str(variant),
                iteration: String::from_str("prime"),
                layers,
            },
        );
        proof {
            let c = old(self)@;
            let n = derived(c, parent@, variant@);
            old(self).lemma_view();
            self.lemma_view();
            assert(self@.len() == n.len());
            assert forall|j: int| 0 <= j < n.len() implies self@[j] == n[j] by {
                if j < c.len() {
                    assert(self.snapshots@[j] == old(self).snapshots@[j]);
                }
            }
            assert(self@ =~= n);
            lemma_derived_is_well_formed(c, parent@, variant@);
            assert forall|j: int| 0 <= j < self.snapshots@.len() implies sound_layers(
                (#[trigger] self.snapshots@[j]).layers@,
            ) by {
                if j < c.len() {
                    assert(self.snapshots@[j] == old(self).snapshots@[j]);
                }
            }
        }
        Ok(statements)
    }
}

/// In a well-formed catalogue an iteration that stands at a place is the one
/// that `slot` finds.
pub proof fn lemma_slot_is_exact(c: Seq<SnapshotView>, s: int)
    requires
        well_formed(c),
        0 <= s < c.len(),
    ensures
        slot(c, c[s].branch, c[s].iteration) == Some(s),
{
    let k = slot(c, c[s].branch, c[s].iteration)->0;
    assert(same_place(c[k], c[s]) && same_place(c[s], c[k]));
}

/// Among layers with distinct names, a layer that stands at a place is the
/// one that `layer_slot` finds.
pub proof fn lemma_layer_slot_is_exact(layers: Seq<LayerDescriptorView>, k: int)
    requires
        distinct_names(layers),
        0 <= k < layers.len(),
    ensures
        layer_slot(layers, layers[k].name) == Some(k),
{
    let j = layer_slot(layers, layers[k].name)->0;
    assert(layers[j].name == layers[k].name);
}

/// The iteration at which `is_latest` holds is the one that `latest` finds.
pub proof fn lemma_latest_is_exact(c: Seq<SnapshotView>, branch: Seq<char>, k: int)
    requires
        is_latest(c, branch, k),
    ensures
        latest(c, branch) == Some(k),
{
    let j = latest(c, branch)->0;
    assert(is_latest(c, branch, j));
    if j < k {
        assert(c[k].branch != branch);
    } else if k < j {
        assert(c[j].branch != branch);
    }
}

/// Two well-formed catalogues that hold the same iterations at the same
/// places, whatever the layers, find every iteration at the same place.
pub proof fn lemma_same_places(
    c: Seq<SnapshotView>,
    n: Seq<SnapshotView>,
    branch: Seq<char>,
    iteration: Seq<char>,
)
    requires
        well_formed(c),
        well_formed(n),
        c.len() == n.len(),
        forall|i: int| 0 <= i < c.len() ==> same_place(#[trigger] c[i], n[i]),
    ensures
        slot(n, branch, iteration) == slot(c, branch, iteration),
{
    if slot(c, branch, iteration) is Some {
        let k = slot(c, branch, iteration)->0;
        assert(same_place(c[k], n[k]));
        lemma_slot_is_exact(n, k);
    } else {
        if slot(n, branch, iteration) is Some {
            let k = slot(n, branch, iteration)->0;
            assert(same_place(c[k], n[k]));
            assert(false);
        }
    }
}

/// Add then describe: a layer that was added is described as it was given.
pub proof fn lemma_add_then_describe(
    c: Seq<SnapshotView>,
    branch: Seq<char>,
    iteration: Seq<char>,
    d: LayerDescriptorView,
)
    requires
        well_formed(c),
        add_layer_complaint(c, branch, iteration, d) is None,
    ensures
        description(with_layer(c, branch, iteration, d), branch, iteration, d.name) == Some(d),
{
    let s = slot(c, branch, iteration)->0;
    let n = with_layer(c, branch, iteration, d);
    lemma_with_layer_is_well_formed(c, branch, iteration, d);
    assert forall|i: int| 0 <= i < c.len() implies same_place(#[trigger] c[i], n[i]) by {}
    lemma_same_places(c, n, branch, iteration);
    let layers = n[s].layers;
    assert(distinct_names(layers));
    assert(layers[c[s].layers.len() as int] == d);
    lemma_layer_slot_is_exact(layers, c[s].layers.len() as int);
}

/// Add then remove: a layer that was added can be removed, and the catalogue
/// is then what it was before.
pub proof fn lemma_add_then_remove(
    c: Seq<SnapshotView>,
    branch: Seq<char>,
    iteration: Seq<char>,
    d: LayerDescriptorView,
)
    requires
        well_formed(c),
        add_layer_complaint(c, branch, iteration, d) is None,
    ensures
        remove_layer_complaint(with_layer(c, branch, iteration, d), branch, iteration, d.name)
            is None,
        without_layer(with_layer(c, branch, iteration, d), branch, iteration, d.name) == c,
{
    let s = slot(c, branch, iteration)->0;
    let n = with_layer(c, branch, iteration, d);
    lemma_with_layer_is_well_formed(c, branch, iteration, d);
    assert forall|i: int| 0 <= i < c.len() implies same_place(#[trigger] c[i], n[i]) by {}
    lemma_same_places(c, n, branch, iteration);
    let layers = n[s].layers;
    let last = c[s].layers.len() as int;
    assert(distinct_names(layers));
    assert(layers[last] == d);
    lemma_layer_slot_is_exact(layers, last);
    assert(layers.remove(last) =~= c[s].layers);
    assert(without_layer(n, branch, iteration, d.name) =~= c);
}

/// Remove then describe: a layer that was removed is not described any
/// more, and removing it once more is refused.
pub proof fn lemma_removed_is_absent(
    c: Seq<SnapshotView>,
    branch: Seq<char>,
    iteration: Seq<char>,
    name: Seq<char>,
)
    requires
        well_formed(c),
        remove_layer_complaint(c, branch, iteration, name) is None,
    ensures
        description(without_layer(c, branch, iteration, name), branch, iteration, name) is None,
        remove_layer_complaint(without_layer(c, branch, iteration, name), branch, iteration, name)
            == Some("no layer of this name exists"@),
{
    let s = slot(c, branch, iteration)->0;
    let k = layer_slot(c[s].layers, name)->0;
    let n = without_layer(c, branch, iteration, name);
    lemma_without_layer_is_well_formed(c, branch, iteration, name);
    assert forall|i: int| 0 <= i < c.len() implies same_place(#[trigger] c[i], n[i]) by {}
    lemma_same_places(c, n, branch, iteration);
    let before = c[s].layers;
    let after = n[s].layers;
    assert(distinct_names(before));
    assert forall|j: int| 0 <= j < after.len() implies after[j].name != name by {
        if j < k {
            assert(before[j].name != before[k].name);
        } else {
            assert(before[k].name != before[j + 1].name);
        }
    }
}

/// Of two layers with one name the second is refused: after a layer was
/// added, the iteration takes no other layer of that name.
pub proof fn lemma_second_add_is_refused(
    c: Seq<SnapshotView>,
    branch: Seq<char>,
    iteration: Seq<char>,
    d: LayerDescriptorView,
    e: LayerDescriptorView,
)
    requires
        well_formed(c),
        add_layer_complaint(c, branch, iteration, d) is None,
        e.name == d.name,
    ensures
        add_layer_complaint(with_layer(c, branch, iteration, d), branch, iteration, e) is Some,
        e.complaint() is None ==> add_layer_complaint(
            with_layer(c, branch, iteration, d),
            branch,
            iteration,
            e,
        ) == Some("a layer of this name exists already"@),
{
    lemma_add_then_describe(c, branch, iteration, d);
}

/// A layer that is added to one iteration changes no other iteration.
pub proof fn lemma_add_is_local(
    c: Seq<SnapshotView>,
    branch: Seq<char>,
    iteration: Seq<char>,
    d: LayerDescriptorView,
    other_branch: Seq<char>,
    other_iteration: Seq<char>,
)
    requires
        well_formed(c),
        add_layer_complaint(c, branch, iteration, d) is None,
        !(other_branch == branch && other_iteration == iteration),
    ensures
        layers_of(with_layer(c, branch, iteration, d), other_branch, other_iteration) == layers_of(
            c,
            other_branch,
            other_iteration,
        ),
{
    let n = with_layer(c, branch, iteration, d);
    lemma_with_layer_is_well_formed(c, branch, iteration, d);
    assert forall|i: int| 0 <= i < c.len() implies same_place(#[trigger] c[i], n[i]) by {}
    lemma_same_places(c, n, other_branch, other_iteration);
}

/// A layer that is removed from one iteration changes no other iteration.
pub proof fn lemma_remove_is_local(
    c: Seq<SnapshotView>,
    branch: Seq<char>,
    iteration: Seq<char>,
    name: Seq<char>,
    other_branch: Seq<char>,
    other_iteration: Seq<char>,
)
    requires
        well_formed(c),
        remove_layer_complaint(c, branch, iteration, name) is None,
        !(other_branch == branch && other_iteration == iteration),
    ensures
        layers_of(without_layer(c, branch, iteration, name), other_branch, other_iteration)
            == layers_of(c, other_branch, other_iteration),
{
    let n = without_layer(c, branch, iteration, name);
    lemma_without_layer_is_well_formed(c, branch, iteration, name);
    assert forall|i: int| 0 <= i < c.len() implies same_place(#[trigger] c[i], n[i]) by {}
    lemma_same_places(c, n, other_branch, other_iteration);
}

/// A derived variant starts with the layers of its parent's current
/// iteration, in its own iteration `prime`, which is its current one.
pub proof fn lemma_derive_copies(c: Seq<SnapshotView>, parent: Seq<char>, variant: Seq<char>)
    requires
        well_formed(c),
        derive_complaint(c, parent, variant) is None,
    ensures
        latest(derived(c, parent, variant), variant) == Some(c.len() as int),
        slot(derived(c, parent, variant), variant, "prime"@) == Some(c.len() as int),
        layers_of(derived(c, parent, variant), variant, "prime"@) == layers_of(
            c,
            parent,
            c[latest(c, parent)->0].iteration,
        ),
{
    let n = derived(c, parent, variant);
    let last = c.len() as int;
    lemma_derived_is_well_formed(c, parent, variant);
    assert(n[last].branch == variant);
    assert(is_latest(n, variant, last));
    lemma_latest_is_exact(n, variant, last);
    lemma_slot_is_exact(n, last);
    lemma_slot_is_exact(c, latest(c, parent)->0);
}

/// Deriving a variant changes no iteration of another variant, nor which
/// iteration of it is current.
pub proof fn lemma_derive_is_local(
    c: Seq<SnapshotView>,
    parent: Seq<char>,
    variant: Seq<char>,
    branch: Seq<char>,
    iteration: Seq<char>,
)
    requires
        well_formed(c),
        derive_complaint(c, parent, variant) is None,
        branch != variant,
    ensures
        slot(derived(c, parent, variant), branch, iteration) == slot(c, branch, iteration),
        layers_of(derived(c, parent, variant), branch, iteration) == layers_of(
            c,
            branch,
            iteration,
        ),
        latest(derived(c, parent, variant), branch) == latest(c, branch),
{
    let n = derived(c, parent, variant);
    lemma_derived_is_well_formed(c, parent, variant);
    if slot(c, branch, iteration) is Some {
        let k = slot(c, branch, iteration)->0;
        assert(n[k] == c[k]);
        lemma_slot_is_exact(n, k);
    } else {
        if slot(n, branch, iteration) is Some {
            let k = slot(n, branch, iteration)->0;
            assert(k < c.len());
            assert(n[k] == c[k]);
            assert(false);
        }
    }
    if has_branch(c, branch) {
        lemma_latest_exists(c, branch);
        let k = latest(c, branch)->0;
        assert(n[k] == c[k]);
        assert forall|j: int| k < j < n.len() implies n[j].branch != branch by {
            if j < c.len() {
                assert(n[j] == c[j]);
            }
        }
        assert(is_latest(n, branch, k));
        lemma_latest_is_exact(n, branch, k);
    } else {
        if latest(n, branch) is Some {
            let k = latest(n, branch)->0;
            assert(is_latest(n, branch, k));
            assert(k < c.len());
            assert(n[k] == c[k]);
            assert(false);
        }
        if latest(c, branch) is Some {
            let k = latest(c, branch)->0;
            assert(is_latest(c, branch, k));
            assert(false);
        }
    }
}

/// Branch isolation: after a variant was derived, a layer that is added to
/// it changes no iteration of another variant, and a layer that is added to
/// another variant, its parent too, does not change the derived one.
pub proof fn lemma_branch_isolation(
    c: Seq<SnapshotView>,
    parent: Seq<char>,
    variant: Seq<char>,
    d: LayerDescriptorView,
    branch: Seq<char>,
    iteration: Seq<char>,
)
    requires
        well_formed(c),
        derive_complaint(c, parent, variant) is None,
        branch != variant,
    ensures
        add_layer_complaint(derived(c, parent, variant), variant, "prime"@, d) is None
            ==> layers_of(
            with_layer(derived(c, parent, variant), variant, "prime"@, d),
            branch,
            iteration,
        ) == layers_of(c, branch, iteration),
        add_layer_complaint(derived(c, parent, variant), branch, iteration, d) is None
            ==> layers_of(
            with_layer(derived(c, parent, variant), branch, iteration, d),
            variant,
            "prime"@,
        ) == layers_of(derived(c, parent, variant), variant, "prime"@),
{
    let n = derived(c, parent, variant);
    lemma_derived_is_well_formed(c, parent, variant);
    lemma_derive_is_local(c, parent, variant, branch, iteration);
    if add_layer_complaint(n, variant, "prime"@, d) is None {
        lemma_add_is_local(n, variant, "prime"@, d, branch, iteration);
    }
    if add_layer_complaint(n, branch, iteration, d) is None {
        lemma_add_is_local(n, branch, iteration, d, variant, "prime"@);
    }
}

/// Adding a layer that is not refused keeps the catalogue well-formed.
pub proof fn lemma_with_layer_is_well_formed(
    c: Seq<SnapshotView>,
    branch: Seq<char>,
    iteration: Seq<char>,
    d: LayerDescriptorView,
)
    requires
        well_formed(c),
        add_layer_complaint(c, branch, iteration, d) is None,
    ensures
        well_formed(with_layer(c, branch, iteration, d)),
{
    let s = slot(c, branch, iteration)->0;
    let n = with_layer(c, branch, iteration, d);
    assert forall|i: int, j: int| 0 <= i < j < n.len() implies !same_place(n[i], n[j]) by {
        assert(!same_place(c[i], c[j]));
    }
    assert forall|i: int| 0 <= i < n.len() implies distinct_names(#[trigger] n[i].layers) by {
        assert(distinct_names(c[i].layers));
        if i == s {
            let old_layers = c[s].layers;
            assert forall|a: int, b: int| 0 <= a < b < n[i].layers.len() implies n[i].layers[a].name
                != n[i].layers[b].name by {
                if b == old_layers.len() {
                    assert(old_layers[a].name != d.name);
                }
            }
        }
    }
    assert forall|i: int, j: int| 0 <= i < n.len() && 0 <= j < n[i].layers.len() implies (
    #[trigger] n[i].layers[j]).valid() by {
        if i == s && j == c[s].layers.len() {
        } else {
            assert(c[i].layers[j].valid());
        }
    }
}

/// Removing a layer keeps the catalogue well-formed.
pub proof fn lemma_without_layer_is_well_formed(
    c: Seq<SnapshotView>,
    branch: Seq<char>,
    iteration: Seq<char>,
    name: Seq<char>,
)
    requires
        well_formed(c),
        remove_layer_complaint(c, branch, iteration, name) is None,
    ensures
        well_formed(without_layer(c, branch, iteration, name)),
{
    let s = slot(c, branch, iteration)->0;
    let k = layer_slot(c[s].layers, name)->0;
    let n = without_layer(c, branch, iteration, name);
    assert forall|i: int, j: int| 0 <= i < j < n.len() implies !same_place(n[i], n[j]) by {
        assert(!same_place(c[i], c[j]));
    }
    assert forall|i: int| 0 <= i < n.len() implies distinct_names(#[trigger] n[i].layers) by {
        assert(distinct_names(c[i].layers));
        if i == s {
            let old_layers = c[s].layers;
            assert forall|a: int, b: int| 0 <= a < b < n[i].layers.len() implies n[i].layers[a].name
                != n[i].layers[b].name by {
                let a0 = if a < k {
                    a
                } else {
                    a + 1
                };
                let b0 = if b < k {
                    b
                } else {
                    b + 1
                };
                assert(old_layers[a0].name != old_layers[b0].name);
            }
        }
    }
    assert forall|i: int, j: int| 0 <= i < n.len() && 0 <= j < n[i].layers.len() implies (
    #[trigger] n[i].layers[j]).valid() by {
        if i == s {
            let j0 = if j < k {
                j
            } else {
                j + 1
            };
            assert(c[s].layers[j0].valid());
        } else {
            assert(c[i].layers[j].valid());
        }
    }
}

/// Deriving a variant that is not refused keeps the catalogue well-formed.
pub proof fn lemma_derived_is_well_formed(
    c: Seq<SnapshotView>,
    parent: Seq<char>,
    variant: Seq<char>,
)
    requires
        well_formed(c),
        derive_complaint(c, parent, variant) is None,
    ensures
        well_formed(derived(c, parent, variant)),
        is_latest(c, parent, latest(c, parent)->0),
{
    lemma_latest_exists(c, parent);
    let p = latest(c, parent)->0;
    let n = derived(c, parent, variant);
    assert forall|i: int, j: int| 0 <= i < j < n.len() implies !same_place(n[i], n[j]) by {
        if j < c.len() {
            assert(!same_place(c[i], c[j]));
        } else {
            assert(c[i].branch != variant);
        }
    }
    assert forall|i: int| 0 <= i < n.len() implies distinct_names(#[trigger] n[i].layers) by {
        if i < c.len() {
            assert(distinct_names(c[i].layers));
        } else {
            assert(distinct_names(c[p].layers));
        }
    }
    assert forall|i: int, j: int| 0 <= i < n.len() && 0 <= j < n[i].layers.len() implies (
    #[trigger] n[i].layers[j]).valid() by {
        if i < c.len() {
            assert(c[i].layers[j].valid());
        } else {
            assert(c[p].layers[j].valid());
        }
    }
}

/// A variant that the catalogue holds has a current iteration.
pub proof fn lemma_latest_exists(c: Seq<SnapshotView>, branch: Seq<char>)
    requires
        has_branch(c, branch),
    ensures
        latest(c, branch) is Some,
        is_latest(c, branch, latest(c, branch)->0),
    decreases c.len(),
{
    let w = choose|i: int| 0 <= i < c.len() && c[i].branch == branch;
    if c.last().branch == branch {
        assert(is_latest(c, branch, c.len() - 1));
    } else {
        let shorter = c.drop_last();
        assert(shorter[w].branch == branch);
        lemma_latest_exists(shorter, branch);
        let k = latest(shorter, branch)->0;
        assert(is_latest(shorter, branch, k));
        assert forall|j: int| k < j < c.len() implies c[j].branch != branch by {
            if j < shorter.len() {
                assert(shorter[j].branch != branch);
            }
        }
        assert(is_latest(c, branch, k));
    }
}

} // verus!
