//! The one-time contract bootstrap: for each business module, the ordered
//! sequence of ledger actions that registers its smart contract, creates its
//! namespace registry and grants its namespace permissions.
//!
//! Actions are held as plain data. Once the caller has serialized the
//! batch, [`sign_batch_body`] seals those bytes under one signature of the
//! admin key; the ordering and content rules proved here are independent of
//! the wire encoding the caller picks.

use vstd::prelude::*;

use crate::error::SetupError;
use crate::leader::is_submitter;
use crate::leader::spec_is_submitter;
use crate::signing::bearer_auth_header;
use crate::signing::derive_public_key;
use crate::signing::jwt_of;
use crate::signing::key_length_even;
use crate::signing::public_key_of;
use crate::signing::sign_message;
use crate::signing::signature_of;
use crate::text::clone_byte_vec;

verus! {

/// Seconds the submission client waits for the bootstrap batch to commit.
pub const SCABBARD_SUBMISSION_WAIT_SECS: u64 = 10;

/// Address prefix of identity (agent / organization) state.
pub const PIKE_NAMESPACE: &'static str = "cad11d";

/// Address prefix of product state.
pub const GRID_PRODUCT_NAMESPACE: &'static str = "621dee02";

/// Address prefix of location state.
pub const GRID_LOCATION_NAMESPACE: &'static str = "621dee04";

/// Address prefix of schema state.
pub const GRID_SCHEMA_NAMESPACE: &'static str = "621dee01";

/// Address prefix of purchase-order state.
pub const GRID_PURCHASE_ORDER_NAMESPACE: &'static str = "621dee06";

/// A resolved smart-contract archive: the contract's registered name, its
/// version, and the compiled contract payload.
pub struct ContractArchive {
    pub name: String,
    pub version: String,
    pub contract: Vec<u8>,
}

/// Mathematical model of a [`ContractArchive`].
pub struct ArchiveV {
    pub name: Seq<char>,
    pub version: Seq<char>,
    pub contract: Seq<u8>,
}

impl View for ContractArchive {
    type V = ArchiveV;

    open spec fn view(&self) -> ArchiveV {
        ArchiveV { name: self.name@, version: self.version@, contract: self.contract@ }
    }
}

impl DeepView for ContractArchive {
    type V = ArchiveV;

    open spec fn deep_view(&self) -> ArchiveV {
        self.view()
    }
}

/// One bootstrap action, addressed to one or more namespace prefixes.
pub enum TxnAction {
    /// Declare ownership of a named smart contract.
    CreateContractRegistry { name: String, owners: Vec<String> },
    /// Upload a compiled contract under a name and version.
    UploadContract {
        name: String,
        version: String,
        inputs: Vec<String>,
        outputs: Vec<String>,
        contract: Vec<u8>,
    },
    /// Create the registry of a namespace prefix.
    CreateNamespaceRegistry { namespace: String, owners: Vec<String> },
    /// Grant a contract read and/or write access to a namespace prefix.
    CreateNamespaceRegistryPermission {
        namespace: String,
        contract_name: String,
        read: bool,
        write: bool,
    },
}

/// Mathematical model of a [`TxnAction`].
pub enum ActionV {
    CreateContractRegistry { name: Seq<char>, owners: Seq<Seq<char>> },
    UploadContract {
        name: Seq<char>,
        version: Seq<char>,
        inputs: Seq<Seq<char>>,
        outputs: Seq<Seq<char>>,
        contract: Seq<u8>,
    },
    CreateNamespaceRegistry { namespace: Seq<char>, owners: Seq<Seq<char>> },
    CreateNamespaceRegistryPermission {
        namespace: Seq<char>,
        contract_name: Seq<char>,
        read: bool,
        write: bool,
    },
}

impl View for TxnAction {
    type V = ActionV;

    open spec fn view(&self) -> ActionV {
        match self {
            TxnAction::CreateContractRegistry { name, owners } => ActionV::CreateContractRegistry {
                name: name@,
                owners: owners.deep_view(),
            },
            TxnAction::UploadContract { name, version, inputs, outputs, contract } => (
            ActionV::UploadContract {
                name: name@,
                version: version@,
                inputs: inputs.deep_view(),
                outputs: outputs.deep_view(),
                contract: contract@,
            }),
            TxnAction::CreateNamespaceRegistry { namespace, owners } => (
            ActionV::CreateNamespaceRegistry {
                namespace: namespace@,
                owners: owners.deep_view(),
            }),
            TxnAction::CreateNamespaceRegistryPermission { namespace, contract_name, read, write } => (
            ActionV::CreateNamespaceRegistryPermission {
                namespace: namespace@,
                contract_name: contract_name@,
                read: *read,
                write: *write,
            }),
        }
    }
}

impl DeepView for TxnAction {
    type V = ActionV;

    open spec fn deep_view(&self) -> ActionV {
        self.view()
    }
}

/// The contract-upload action: inputs and outputs are the identity namespace
/// and the module's own namespace, in that order.
pub open spec fn spec_upload_contract_txn(c: ArchiveV, contract_prefix: Seq<char>) -> ActionV {
    ActionV::UploadContract {
        name: c.name,
        version: c.version,
        inputs: seq![PIKE_NAMESPACE@, contract_prefix],
        outputs: seq![PIKE_NAMESPACE@, contract_prefix],
        contract: c.contract,
    }
}

/// Builds the action that uploads a compiled contract, addressed to the
/// identity namespace and the module's own prefix.
pub fn make_upload_contract_txn(contract: &ContractArchive, contract_prefix: &str) -> (r: TxnAction)
    ensures
        r@ == spec_upload_contract_txn(contract@, contract_prefix@),
{
    let mut inputs: Vec<String> = Vec::new();
    inputs.push(PIKE_NAMESPACE.to_owned());
    inputs.push(contract_prefix.to_owned());
    let mut outputs: Vec<String> = Vec::new();
    outputs.push(PIKE_NAMESPACE.to_owned());
    outputs.push(contract_prefix.to_owned());
    proof {
        assert(inputs.deep_view() =~= seq![PIKE_NAMESPACE@, contract_prefix@]);
        assert(outputs.deep_view() =~= seq![PIKE_NAMESPACE@, contract_prefix@]);
    }
    TxnAction::UploadContract {
        name: contract.name.clone(),
        version: contract.version.clone(),
        inputs,
        outputs,
        contract: clone_byte_vec(&contract.contract),
    }
}

/// The action declaring a contract registry owned by the submitting key.
pub open spec fn spec_registry_txn(name: Seq<char>, public_key: Seq<char>) -> ActionV {
    ActionV::CreateContractRegistry { name: name, owners: seq![public_key] }
}

/// The action creating a namespace registry owned by the submitting key.
pub open spec fn spec_namespace_txn(namespace: Seq<char>, public_key: Seq<char>) -> ActionV {
    ActionV::CreateNamespaceRegistry { namespace: namespace, owners: seq![public_key] }
}

/// The action granting a contract read and write access to a namespace.
pub open spec fn spec_permission_txn(namespace: Seq<char>, contract_name: Seq<char>) -> ActionV {
    ActionV::CreateNamespaceRegistryPermission {
        namespace: namespace,
        contract_name: contract_name,
        read: true,
        write: true,
    }
}

fn registry_action(name: &String, public_key: &String) -> (r: TxnAction)
    ensures
        r@ == spec_registry_txn(name@, public_key@),
{
    let mut owners: Vec<String> = Vec::new();
    owners.push(public_key.clone());
    proof {
        assert(owners.deep_view() =~= seq![public_key@]);
    }
    TxnAction::CreateContractRegistry { name: name.clone(), owners }
}

fn namespace_action(namespace: &str, public_key: &String) -> (r: TxnAction)
    ensures
        r@ == spec_namespace_txn(namespace@, public_key@),
{
    let mut owners: Vec<String> = Vec::new();
    owners.push(public_key.clone());
    proof {
        assert(owners.deep_view() =~= seq![public_key@]);
    }
    TxnAction::CreateNamespaceRegistry { namespace: namespace.to_owned(), owners }
}

fn permission_action(namespace: &str, contract_name: &String) -> (r: TxnAction)
    ensures
        r@ == spec_permission_txn(namespace@, contract_name@),
{
    TxnAction::CreateNamespaceRegistryPermission {
        namespace: namespace.to_owned(),
        contract_name: contract_name.clone(),
        read: true,
        write: true,
    }
}

/// The identity module's bootstrap sequence: contract registry, contract
/// upload, namespace registry, own-namespace permission.
pub open spec fn spec_pike_txns(c: ArchiveV, public_key: Seq<char>) -> Seq<ActionV> {
    seq![
        spec_registry_txn(c.name, public_key),
        spec_upload_contract_txn(c, PIKE_NAMESPACE@),
        spec_namespace_txn(PIKE_NAMESPACE@, public_key),
        spec_permission_txn(PIKE_NAMESPACE@, c.name),
    ]
}

/// Appends the identity module's bootstrap transactions.
pub fn make_pike_txns(txns: &mut Vec<TxnAction>, contract: &ContractArchive, public_key: &String)
    ensures
        final(txns).deep_view() == old(txns).deep_view() + spec_pike_txns(
            contract@,
            public_key@,
        ),
{
    txns.push(registry_action(&contract.name, public_key));
    txns.push(make_upload_contract_txn(contract, PIKE_NAMESPACE));
    txns.push(namespace_action(PIKE_NAMESPACE, public_key));
    txns.push(permission_action(PIKE_NAMESPACE, &contract.name));
    proof {
        assert(txns.deep_view() =~= old(txns).deep_view() + spec_pike_txns(
            contract@,
            public_key@,
        ));
    }
}

/// The product module's bootstrap sequence: its own registry, upload,
/// namespace and permission, then grants on the identity and schema
/// namespaces for the product contract.
pub open spec fn spec_product_txns(c: ArchiveV, public_key: Seq<char>) -> Seq<ActionV> {
    seq![
        spec_registry_txn(c.name, public_key),
        spec_upload_contract_txn(c, GRID_PRODUCT_NAMESPACE@),
        spec_namespace_txn(GRID_PRODUCT_NAMESPACE@, public_key),
        spec_permission_txn(GRID_PRODUCT_NAMESPACE@, c.name),
        spec_permission_txn(PIKE_NAMESPACE@, c.name),
        spec_permission_txn(GRID_SCHEMA_NAMESPACE@, c.name),
    ]
}

/// Appends the product module's bootstrap transactions.
pub fn make_product_txns(txns: &mut Vec<TxnAction>, contract: &ContractArchive, public_key: &String)
    ensures
        final(txns).deep_view() == old(txns).deep_view() + spec_product_txns(
            contract@,
            public_key@,
        ),
{
    txns.push(registry_action(&contract.name, public_key));
    txns.push(make_upload_contract_txn(contract, GRID_PRODUCT_NAMESPACE));
    txns.push(namespace_action(GRID_PRODUCT_NAMESPACE, public_key));
    txns.push(permission_action(GRID_PRODUCT_NAMESPACE, &contract.name));
    txns.push(permission_action(PIKE_NAMESPACE, &contract.name));
    txns.push(permission_action(GRID_SCHEMA_NAMESPACE, &contract.name));
    proof {
        assert(txns.deep_view() =~= old(txns).deep_view() + spec_product_txns(
            contract@,
            public_key@,
        ));
    }
}

/// The location module's bootstrap sequence: its own registry, upload,
/// namespace and permission, then grants on the identity and schema
/// namespaces for the location contract.
pub open spec fn spec_location_txns(c: ArchiveV, public_key: Seq<char>) -> Seq<ActionV> {
    seq![
        spec_registry_txn(c.name, public_key),
        spec_upload_contract_txn(c, GRID_LOCATION_NAMESPACE@),
        spec_namespace_txn(GRID_LOCATION_NAMESPACE@, public_key),
        spec_permission_txn(GRID_LOCATION_NAMESPACE@, c.name),
        spec_permission_txn(PIKE_NAMESPACE@, c.name),
        spec_permission_txn(GRID_SCHEMA_NAMESPACE@, c.name),
    ]
}

/// Appends the location module's bootstrap transactions.
pub fn make_location_txns(
    txns: &mut Vec<TxnAction>,
    contract: &ContractArchive,
    public_key: &String,
)
    ensures
        final(txns).deep_view() == old(txns).deep_view() + spec_location_txns(
            contract@,
            public_key@,
        ),
{
    txns.push(registry_action(&contract.name, public_key));
    txns.push(make_upload_contract_txn(contract, GRID_LOCATION_NAMESPACE));
    txns.push(namespace_action(GRID_LOCATION_NAMESPACE, public_key));
    txns.push(permission_action(GRID_LOCATION_NAMESPACE, &contract.name));
    txns.push(permission_action(PIKE_NAMESPACE, &contract.name));
    txns.push(permission_action(GRID_SCHEMA_NAMESPACE, &contract.name));
    proof {
        assert(txns.deep_view() =~= old(txns).deep_view() + spec_location_txns(
            contract@,
            public_key@,
        ));
    }
}

/// The schema module's bootstrap sequence: its own registry, upload,
/// namespace and permission, then a grant on the identity namespace for the
/// schema contract.
pub open spec fn spec_schema_txns(c: ArchiveV, public_key: Seq<char>) -> Seq<ActionV> {
    seq![
        spec_registry_txn(c.name, public_key),
        spec_upload_contract_txn(c, GRID_SCHEMA_NAMESPACE@),
        spec_namespace_txn(GRID_SCHEMA_NAMESPACE@, public_key),
        spec_permission_txn(GRID_SCHEMA_NAMESPACE@, c.name),
        spec_permission_txn(PIKE_NAMESPACE@, c.name),
    ]
}

/// Appends the schema module's bootstrap transactions.
pub fn make_schema_txns(txns: &mut Vec<TxnAction>, contract: &ContractArchive, public_key: &String)
    ensures
        final(txns).deep_view() == old(txns).deep_view() + spec_schema_txns(
            contract@,
            public_key@,
        ),
{
    txns.push(registry_action(&contract.name, public_key));
    txns.push(make_upload_contract_txn(contract, GRID_SCHEMA_NAMESPACE));
    txns.push(namespace_action(GRID_SCHEMA_NAMESPACE, public_key));
    txns.push(permission_action(GRID_SCHEMA_NAMESPACE, &contract.name));
    txns.push(permission_action(PIKE_NAMESPACE, &contract.name));
    proof {
        assert(txns.deep_view() =~= old(txns).deep_view() + spec_schema_txns(
            contract@,
            public_key@,
        ));
    }
}

/// The purchase-order module's bootstrap sequence: its own registry, upload,
/// namespace and permission, then a grant on the identity namespace for the
/// purchase-order contract.
pub open spec fn spec_purchase_order_txns(c: ArchiveV, public_key: Seq<char>) -> Seq<ActionV> {
    seq![
        spec_registry_txn(c.name, public_key),
        spec_upload_contract_txn(c, GRID_PURCHASE_ORDER_NAMESPACE@),
        spec_namespace_txn(GRID_PURCHASE_ORDER_NAMESPACE@, public_key),
        spec_permission_txn(GRID_PURCHASE_ORDER_NAMESPACE@, c.name),
        spec_permission_txn(PIKE_NAMESPACE@, c.name),
    ]
}

/// Appends the purchase-order module's bootstrap transactions.
pub fn make_purchase_order_txns(
    txns: &mut Vec<TxnAction>,
    contract: &ContractArchive,
    public_key: &String,
)
    ensures
        final(txns).deep_view() == old(txns).deep_view() + spec_purchase_order_txns(
            contract@,
            public_key@,
        ),
{
    txns.push(registry_action(&contract.name, public_key));
    txns.push(make_upload_contract_txn(contract, GRID_PURCHASE_ORDER_NAMESPACE));
    txns.push(namespace_action(GRID_PURCHASE_ORDER_NAMESPACE, public_key));
    txns.push(permission_action(GRID_PURCHASE_ORDER_NAMESPACE, &contract.name));
    txns.push(permission_action(PIKE_NAMESPACE, &contract.name));
    proof {
        assert(txns.deep_view() =~= old(txns).deep_view() + spec_purchase_order_txns(
            contract@,
            public_key@,
        ));
    }
}

/// The resolved contract archives of the five business modules.
pub struct BootstrapArchives {
    pub pike: ContractArchive,
    pub product: ContractArchive,
    pub location: ContractArchive,
    pub schema: ContractArchive,
    pub purchase_order: ContractArchive,
}

/// Mathematical model of [`BootstrapArchives`].
pub struct BootstrapArchivesV {
    pub pike: ArchiveV,
    pub product: ArchiveV,
    pub location: ArchiveV,
    pub schema: ArchiveV,
    pub purchase_order: ArchiveV,
}

impl View for BootstrapArchives {
    type V = BootstrapArchivesV;

    open spec fn view(&self) -> BootstrapArchivesV {
        BootstrapArchivesV {
            pike: self.pike@,
            product: self.product@,
            location: self.location@,
            schema: self.schema@,
            purchase_order: self.purchase_order@,
        }
    }
}

/// The whole bootstrap plan: the five modules' transaction sequences,
/// concatenated in the fixed processing order.
pub open spec fn spec_setup_plan(a: BootstrapArchivesV, public_key: Seq<char>) -> Seq<ActionV> {
    spec_pike_txns(a.pike, public_key) + spec_product_txns(a.product, public_key)
        + spec_location_txns(a.location, public_key) + spec_schema_txns(a.schema, public_key)
        + spec_purchase_order_txns(a.purchase_order, public_key)
}

/// Builds the whole bootstrap transaction list, module by module, in the
/// fixed processing order.
pub fn build_setup_txns(archives: &BootstrapArchives, public_key: &String) -> (r: Vec<TxnAction>)
    ensures
        r.deep_view() == spec_setup_plan(archives@, public_key@),
{
    let mut txns: Vec<TxnAction> = Vec::new();
    proof {
        assert(txns.deep_view() =~= Seq::<ActionV>::empty());
    }
    make_pike_txns(&mut txns, &archives.pike, public_key);
    make_product_txns(&mut txns, &archives.product, public_key);
    make_location_txns(&mut txns, &archives.location, public_key);
    make_schema_txns(&mut txns, &archives.schema, public_key);
    make_purchase_order_txns(&mut txns, &archives.purchase_order, public_key);
    proof {
        assert(txns.deep_view() =~= spec_setup_plan(archives@, public_key@));
    }
    txns
}

/// Whether every namespace-permission grant in `plan` is preceded by the
/// upload of the contract it names.
pub open spec fn upload_precedes_grants(plan: Seq<ActionV>) -> bool {
    forall|j: int|
        0 <= j < plan.len() && (#[trigger] plan[j]) is CreateNamespaceRegistryPermission
            ==> exists|i: int|
            0 <= i < j && (#[trigger] plan[i]) is UploadContract
                && plan[i]->UploadContract_name == plan[j]->CreateNamespaceRegistryPermission_contract_name
}

/// In the bootstrap plan, every permission grant that names a module's
/// contract comes after the transaction that uploads that contract.
pub proof fn lemma_setup_plan_upload_precedes_grants(a: BootstrapArchivesV, public_key: Seq<char>)
    ensures
        upload_precedes_grants(spec_setup_plan(a, public_key)),
{
    let plan = spec_setup_plan(a, public_key);
    assert(plan.len() == 26);
    assert forall|j: int|
        0 <= j < plan.len() && (#[trigger] plan[j]) is CreateNamespaceRegistryPermission
            implies exists|i: int|
        0 <= i < j && (#[trigger] plan[i]) is UploadContract
            && plan[i]->UploadContract_name == plan[j]->CreateNamespaceRegistryPermission_contract_name by {
        if j == 3 {
            assert(plan[1] is UploadContract && plan[1]->UploadContract_name
                == plan[j]->CreateNamespaceRegistryPermission_contract_name);
        } else if 7 <= j <= 9 {
            assert(plan[5] is UploadContract && plan[5]->UploadContract_name
                == plan[j]->CreateNamespaceRegistryPermission_contract_name);
        } else if 13 <= j <= 15 {
            assert(plan[11] is UploadContract && plan[11]->UploadContract_name
                == plan[j]->CreateNamespaceRegistryPermission_contract_name);
        } else if 19 <= j <= 20 {
            assert(plan[17] is UploadContract && plan[17]->UploadContract_name
                == plan[j]->CreateNamespaceRegistryPermission_contract_name);
        } else {
            assert(24 <= j <= 25);
            assert(plan[22] is UploadContract && plan[22]->UploadContract_name
                == plan[j]->CreateNamespaceRegistryPermission_contract_name);
        }
    }
}

/// The number of actions contributed by the first `m` per-module lists.
pub open spec fn spec_prefix_len<A>(lists: Seq<Seq<A>>, m: int) -> int
    decreases m,
{
    if m <= 0 {
        0
    } else {
        spec_prefix_len(lists, m - 1) + lists[m - 1].len()
    }
}

proof fn lemma_prefix_len_drop_first<A>(lists: Seq<Seq<A>>, m: int)
    requires
        1 <= m <= lists.len(),
    ensures
        spec_prefix_len(lists, m) == lists[0].len() + spec_prefix_len(lists.drop_first(), m - 1),
    decreases m,
{
    if m == 1 {
        assert(spec_prefix_len(lists, 0) == 0);
        assert(spec_prefix_len(lists.drop_first(), 0) == 0);
    } else {
        lemma_prefix_len_drop_first(lists, m - 1);
        assert(spec_prefix_len(lists, m) == spec_prefix_len(lists, m - 1) + lists[m - 1].len());
        assert(spec_prefix_len(lists.drop_first(), m - 1) == spec_prefix_len(
            lists.drop_first(),
            m - 2,
        ) + lists.drop_first()[m - 2].len());
        assert(lists.drop_first()[m - 2] == lists[m - 1]);
    }
}

/// Batch assembly is order-preserving: the `k`-th action of the `m`-th
/// per-module list stands in the assembled batch at the index that follows
/// all actions of the earlier lists.
pub proof fn lemma_assemble_order_preserving<A>(lists: Seq<Seq<A>>, m: int, k: int)
    requires
        0 <= m < lists.len(),
        0 <= k < lists[m].len(),
    ensures
        0 <= spec_prefix_len(lists, m) + k < lists.flatten().len(),
        lists.flatten()[spec_prefix_len(lists, m) + k] == lists[m][k],
    decreases m,
{
    assert(lists.flatten() == lists.first().add(lists.drop_first().flatten()));
    if m == 0 {
    } else {
        lemma_prefix_len_drop_first(lists, m);
        lemma_assemble_order_preserving(lists.drop_first(), m - 1, k);
    }
}

/// Batch assembly is deterministic: assembling equal per-module transaction
/// lists yields equal batches.
pub proof fn lemma_assemble_deterministic(a: Seq<Seq<ActionV>>, b: Seq<Seq<ActionV>>)
    requires
        a == b,
    ensures
        a.flatten() == b.flatten(),
{
}

/// Concatenates the per-module transaction lists, in list order, into the
/// single transaction list of the batch.
pub fn assemble_batch(lists: Vec<Vec<TxnAction>>) -> (r: Vec<TxnAction>)
    ensures
        r.deep_view() == lists.deep_view().flatten(),
{
    broadcast use vstd::seq_lib::group_seq_lib_default;

    let ghost orig: Seq<Seq<ActionV>> = lists.deep_view();
    let mut rest = lists;
    let mut r: Vec<TxnAction> = Vec::new();
    proof {
        assert(r.deep_view() =~= orig.subrange(0, 0).flatten());
    }
    proof {
        assert(rest.deep_view() =~= orig.subrange(0, orig.len() as int));
    }
    while rest.len() > 0
        invariant
            rest.len() <= orig.len(),
            rest.deep_view() == orig.subrange(orig.len() - rest.len(), orig.len() as int),
            r.deep_view() == orig.subrange(0, orig.len() - rest.len()).flatten(),
        decreases rest.len(),
    {
        let ghost done: int = orig.len() - rest.len();
        let ghost rest_seq: Seq<Vec<TxnAction>> = rest@;
        let ghost rest_dv: Seq<Seq<ActionV>> = rest.deep_view();
        let mut first = rest.remove(0);
        proof {
            assert(first.deep_view() == rest_dv[0]);
            assert(rest_dv[0] == orig[done]);
            assert(rest@ =~= rest_seq.drop_first());
            assert forall|k: int| 0 <= k < rest@.len() implies rest.deep_view()[k] == orig[done + 1
                + k] by {
                assert(rest@[k] == rest_seq[k + 1]);
                assert(rest.deep_view()[k] == rest@[k].deep_view());
                assert(rest_dv[k + 1] == rest_seq[k + 1].deep_view());
                assert(rest_dv[k + 1] == orig.subrange(done, orig.len() as int)[k + 1]);
            }
            assert(rest.deep_view() =~= orig.subrange(done + 1, orig.len() as int));
        }
        let ghost r_before: Seq<ActionV> = r.deep_view();
        let ghost first_dv: Seq<ActionV> = first.deep_view();
        let ghost first_seq: Seq<TxnAction> = first@;
        r.append(&mut first);
        proof {
            assert(first_dv == orig[done]);
            assert forall|k: int| 0 <= k < r@.len() implies r.deep_view()[k] == (r_before
                + orig[done])[k] by {
                if k < r_before.len() {
                    assert(r@[k].deep_view() == r_before[k]);
                } else {
                    let idx: int = k - r_before.len();
                    assert(r@[k] == first_seq[idx]);
                    assert(first_dv[idx] == first_seq[idx].deep_view());
                }
            }
            assert(r.deep_view() =~= r_before + orig[done]);
            assert(orig.subrange(0, done + 1) =~= orig.subrange(0, done).push(orig[done]));
            orig.subrange(0, done).lemma_flatten_push(orig[done]);
        }
    }
    proof {
        assert(orig.subrange(0, orig.len() as int) =~= orig);
    }
    r
}

/// The bootstrap work of the submitting node: the ordered transactions of
/// the batch and the authorization header to submit them under.
pub struct BootstrapBatch {
    pub transactions: Vec<TxnAction>,
    pub auth: String,
}

/// What `setup_grid` decided for the local node.
pub enum SetupOutcome {
    /// The local key does not stand first in the admin list; nothing was
    /// built.
    NotSubmitter,
    /// The local node is the submitter; the batch is ready to submit.
    Submit(BootstrapBatch),
}

/// Decides, from the admin key and the ordered admin public keys, whether
/// the local node bootstraps the network, and if so builds the ordered
/// transaction batch and the authorization header for its submission: a key
/// the backend accepts either steps aside or yields the whole batch.
///
/// The caller resolves the five module archives beforehand; afterwards it
/// serializes the transactions, seals them with [`sign_batch_body`], and
/// submits.
pub fn setup_grid(
    scabbard_admin_key: &str,
    proposed_admin_pubkeys: &Vec<String>,
    archives: &BootstrapArchives,
) -> (r: Result<SetupOutcome, SetupError>)
    ensures
        scabbard_admin_key@.len() % 2 != 0 ==> (r matches Err(e) && e is InvalidPrivateKey),
        scabbard_admin_key@.len() % 2 == 0 ==> {
            &&& public_key_of(scabbard_admin_key@) is None ==> r is Err
            &&& public_key_of(scabbard_admin_key@) matches Some(pk) ==> {
                &&& !spec_is_submitter(pk, proposed_admin_pubkeys.deep_view()) ==> (r matches Ok(o)
                    && o is NotSubmitter)
                &&& spec_is_submitter(pk, proposed_admin_pubkeys.deep_view()) ==> (r matches Ok(
                    SetupOutcome::Submit(b),
                ) && b.transactions.deep_view() == spec_setup_plan(archives@, pk) && (jwt_of(
                    scabbard_admin_key@,
                ) matches Some(t) && b.auth@ == "Bearer Cylinder:"@ + t))
            }
        },
{
    if !key_length_even(scabbard_admin_key) {
        return Err(
            SetupError::InvalidPrivateKey("the key hex must have an even length".to_owned()),
        );
    }
    let public_key = match derive_public_key(scabbard_admin_key) {
        Ok(pk) => pk,
        Err(e) => {
            return Err(e);
        },
    };
    if !is_submitter(&public_key, proposed_admin_pubkeys) {
        return Ok(SetupOutcome::NotSubmitter);
    }
    let transactions = build_setup_txns(archives, &public_key);
    let auth = match bearer_auth_header(scabbard_admin_key) {
        Ok(a) => a,
        Err(e) => {
            return Err(e);
        },
    };
    Ok(SetupOutcome::Submit(BootstrapBatch { transactions, auth }))
}

/// A batch body sealed for submission: the serialized transaction set, the
/// signature covering exactly those bytes, and the public key that signed.
pub struct SignedBatchEnvelope {
    pub body: Vec<u8>,
    pub signature: Vec<u8>,
    pub signer_public_key: String,
}

/// Seals a serialized batch body under one signature of the admin key, so
/// that the signature covers the concatenated transaction set as the caller
/// serialized it.
pub fn sign_batch_body(scabbard_admin_key: &str, body: Vec<u8>) -> (r: Result<
    SignedBatchEnvelope,
    SetupError,
>)
    ensures
        scabbard_admin_key@.len() % 2 != 0 ==> (r matches Err(e) && e is InvalidPrivateKey),
        scabbard_admin_key@.len() % 2 == 0 ==> {
            &&& public_key_of(scabbard_admin_key@) is None ==> r is Err
            &&& public_key_of(scabbard_admin_key@) matches Some(pk) ==> (r matches Ok(env)
                && env.body@ == body@ && (signature_of(scabbard_admin_key@, body@) matches Some(
                sig,
            ) && env.signature@ == sig) && env.signer_public_key@ == pk)
        },
{
    if !key_length_even(scabbard_admin_key) {
        return Err(
            SetupError::InvalidPrivateKey("the key hex must have an even length".to_owned()),
        );
    }
    let signer_public_key = match derive_public_key(scabbard_admin_key) {
        Ok(pk) => pk,
        Err(e) => {
            return Err(e);
        },
    };
    let signature = match sign_message(scabbard_admin_key, &body) {
        Ok(s) => s,
        Err(e) => {
            return Err(e);
        },
    };
    Ok(SignedBatchEnvelope { body, signature, signer_public_key })
}

} // verus!
