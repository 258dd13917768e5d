//! The registry of resource kinds: for each kind its path, the shape of its
//! responses, its typed fields and the filters the upstream API accepts.

use vstd::prelude::*;
use crate::json::same_text;

verus! {

/// A collection of the upstream API.
#[derive(Clone, Copy, PartialEq, Eq, Structural, Debug)]
pub enum ResourceKind {
    Balance,
    BalanceTransactions,
    Charges,
    Customers,
    Invoices,
    PaymentIntents,
    Products,
    Subscriptions,
}

/// The semantic type of a column.
#[derive(Clone, Copy, PartialEq, Eq, Structural, Debug)]
pub enum ColumnType {
    Bool,
    I64,
    Text,
    /// Seconds since the Unix epoch.
    Timestamp,
}

/// The shape of a response body.
#[derive(Clone, Copy, PartialEq, Eq, Structural, Debug)]
pub enum Envelope {
    /// A bare object: the resource is a singleton and is not paginated.
    Object,
    /// An object marked as a list, which holds the records in an array.
    List,
}

/// What stops an operation before any request is made.
#[derive(Clone, Copy, PartialEq, Eq, Structural, Debug)]
pub enum ConfigError {
    /// A required option is not set.
    MissingOption,
    /// The named resource is not one of the registry.
    UnsupportedResource,
}

/// One field of a resource: its JSON key and its type.
#[derive(Clone, Debug, PartialEq, Eq)]
pub struct FieldDef {
    pub name: String,
    pub ty: ColumnType,
}

impl View for FieldDef {
    type V = (Seq<char>, ColumnType);

    open spec fn view(&self) -> (Seq<char>, ColumnType) {
        (self.name@, self.ty)
    }
}

/// The registry's entry for one kind.
#[derive(Clone, Debug, PartialEq, Eq)]
pub struct Resource {
    pub kind: ResourceKind,
    /// The path of the collection below the base URL.
    pub path: String,
    pub fields: Vec<FieldDef>,
    pub envelope: Envelope,
    /// The key under which a list response holds its records.
    pub record_key: String,
    pub pushdown_fields: Vec<String>,
    pub direct_lookup: bool,
}

impl Resource {
    /// Whether this is the registry's entry for `kind`.
    pub open spec fn describes(&self, kind: ResourceKind) -> bool {
        &&& self.kind == kind
        &&& self.path@ == kind_name(kind)
        &&& schema_view(self.fields@) == schema_of(kind)
        &&& self.envelope == envelope_of(kind)
        &&& self.record_key@ == record_key_of(kind)
        &&& crate::json::strings_view(self.pushdown_fields@) == pushdown_fields_of(kind)
        &&& self.direct_lookup == direct_lookup_of(kind)
    }
}

/// A schema as a sequence of names and types.
pub type SchemaV = Seq<(Seq<char>, ColumnType)>;

/// The view of a list of field definitions.
pub open spec fn schema_view(defs: Seq<FieldDef>) -> SchemaV {
    defs.map_values(|d: FieldDef| d@)
}

/// The kind that `name` denotes.
pub open spec fn kind_of_name(name: Seq<char>) -> Option<ResourceKind> {
    if name == "balance"@ {
        Some(ResourceKind::Balance)
    } else if name == "balance_transactions"@ {
        Some(ResourceKind::BalanceTransactions)
    } else if name == "charges"@ {
        Some(ResourceKind::Charges)
    } else if name == "customers"@ {
        Some(ResourceKind::Customers)
    } else if name == "invoices"@ {
        Some(ResourceKind::Invoices)
    } else if name == "payment_intents"@ {
        Some(ResourceKind::PaymentIntents)
    } else if name == "products"@ {
        Some(ResourceKind::Products)
    } else if name == "subscriptions"@ {
        Some(ResourceKind::Subscriptions)
    } else {
        None
    }
}

/// The name of a kind, which is also its path below the base URL.
pub open spec fn kind_name(kind: ResourceKind) -> Seq<char> {
    match kind {
        ResourceKind::Balance => "balance"@,
        ResourceKind::BalanceTransactions => "balance_transactions"@,
        ResourceKind::Charges => "charges"@,
        ResourceKind::Customers => "customers"@,
        ResourceKind::Invoices => "invoices"@,
        ResourceKind::PaymentIntents => "payment_intents"@,
        ResourceKind::Products => "products"@,
        ResourceKind::Subscriptions => "subscriptions"@,
    }
}

/// The typed fields of a kind, in order.
pub open spec fn schema_of(kind: ResourceKind) -> SchemaV {
    match kind {
        ResourceKind::Balance => seq![("amount"@, ColumnType::I64), ("currency"@, ColumnType::Text)],
        ResourceKind::BalanceTransactions => seq![
            ("id"@, ColumnType::Text),
            ("amount"@, ColumnType::I64),
            ("currency"@, ColumnType::Text),
            ("description"@, ColumnType::Text),
            ("fee"@, ColumnType::I64),
            ("net"@, ColumnType::I64),
            ("status"@, ColumnType::Text),
            ("type"@, ColumnType::Text),
            ("created"@, ColumnType::Timestamp),
        ],
        ResourceKind::Charges => seq![
            ("id"@, ColumnType::Text),
            ("amount"@, ColumnType::I64),
            ("currency"@, ColumnType::Text),
            ("customer"@, ColumnType::Text),
            ("description"@, ColumnType::Text),
            ("invoice"@, ColumnType::Text),
            ("payment_intent"@, ColumnType::Text),
            ("status"@, ColumnType::Text),
            ("created"@, ColumnType::Timestamp),
        ],
        ResourceKind::Customers => seq![
            ("id"@, ColumnType::Text),
            ("email"@, ColumnType::Text),
            ("name"@, ColumnType::Text),
            ("description"@, ColumnType::Text),
            ("created"@, ColumnType::Timestamp),
        ],
        ResourceKind::Invoices => seq![
            ("id"@, ColumnType::Text),
            ("customer"@, ColumnType::Text),
            ("subscription"@, ColumnType::Text),
            ("status"@, ColumnType::Text),
            ("total"@, ColumnType::I64),
            ("currency"@, ColumnType::Text),
            ("period_start"@, ColumnType::Timestamp),
            ("period_end"@, ColumnType::Timestamp),
        ],
        ResourceKind::PaymentIntents => seq![
            ("id"@, ColumnType::Text),
            ("customer"@, ColumnType::Text),
            ("amount"@, ColumnType::I64),
            ("currency"@, ColumnType::Text),
            ("payment_method"@, ColumnType::Text),
            ("created"@, ColumnType::Timestamp),
        ],
        ResourceKind::Products => seq![
            ("id"@, ColumnType::Text),
            ("name"@, ColumnType::Text),
            ("active"@, ColumnType::Bool),
            ("default_price"@, ColumnType::Text),
            ("description"@, ColumnType::Text),
            ("created"@, ColumnType::Timestamp),
            ("updated"@, ColumnType::Timestamp),
        ],
        ResourceKind::Subscriptions => seq![
            ("id"@, ColumnType::Text),
            ("customer"@, ColumnType::Text),
            ("currency"@, ColumnType::Text),
            ("current_period_start"@, ColumnType::Timestamp),
            ("current_period_end"@, ColumnType::Timestamp),
        ],
    }
}

/// The key under which a list response of this kind holds its records.
pub open spec fn record_key_of(kind: ResourceKind) -> Seq<char> {
    match kind {
        ResourceKind::Balance => "available"@,
        _ => "data"@,
    }
}

/// The shape of this kind's responses.
pub open spec fn envelope_of(kind: ResourceKind) -> Envelope {
    match kind {
        ResourceKind::Balance => Envelope::Object,
        _ => Envelope::List,
    }
}

/// The fields on which the upstream API filters a list of this kind.
pub open spec fn pushdown_fields_of(kind: ResourceKind) -> Seq<Seq<char>> {
    match kind {
        ResourceKind::Balance => seq![],
        ResourceKind::BalanceTransactions => seq!["payout"@, "type"@],
        ResourceKind::Charges => seq!["customer"@],
        ResourceKind::Customers => seq!["email"@],
        ResourceKind::Invoices => seq!["customer"@, "status"@, "subscription"@],
        ResourceKind::PaymentIntents => seq!["customer"@],
        ResourceKind::Products => seq!["active"@],
        ResourceKind::Subscriptions => seq!["customer"@, "price"@, "status"@],
    }
}

/// Whether one record of this kind can be fetched by its identifier.
pub open spec fn direct_lookup_of(kind: ResourceKind) -> bool {
    kind == ResourceKind::Customers || kind == ResourceKind::Products || kind
        == ResourceKind::Subscriptions
}

fn def(name: &str, ty: ColumnType) -> (r: FieldDef)
    ensures
        r@ == (name@, ty),
{
    FieldDef { name: name.to_owned(), ty }
}

impl ResourceKind {
    /// The kind that `name` denotes; an unknown name is refused.
    pub fn from_name(name: &str) -> (r: Result<ResourceKind, ConfigError>)
        ensures
            r == match kind_of_name(name@) {
                Some(kind) => Ok::<ResourceKind, ConfigError>(kind),
                None => Err(ConfigError::UnsupportedResource),
            },
    {
        if same_text(name, "balance") {
            Ok(ResourceKind::Balance)
        } else if same_text(name, "balance_transactions") {
            Ok(ResourceKind::BalanceTransactions)
        } else if same_text(name, "charges") {
            Ok(ResourceKind::Charges)
        } else if same_text(name, "customers") {
            Ok(ResourceKind::Customers)
        } else if same_text(name, "invoices") {
            Ok(ResourceKind::Invoices)
        } else if same_text(name, "payment_intents") {
            Ok(ResourceKind::PaymentIntents)
        } else if same_text(name, "products") {
            Ok(ResourceKind::Products)
        } else if same_text(name, "subscriptions") {
            Ok(ResourceKind::Subscriptions)
        } else {
            Err(ConfigError::UnsupportedResource)
        }
    }

    /// The name of this kind.
    pub fn name(&self) -> (r: String)
        ensures
            r@ == kind_name(*self),
    {
        match self {
            ResourceKind::Balance => "balance".to_owned(),
            ResourceKind::BalanceTransactions => "balance_transactions".to_owned(),
            ResourceKind::Charges => "charges".to_owned(),
            ResourceKind::Customers => "customers".to_owned(),
            ResourceKind::Invoices => "invoices".to_owned(),
            ResourceKind::PaymentIntents => "payment_intents".to_owned(),
            ResourceKind::Products => "products".to_owned(),
            ResourceKind::Subscriptions => "subscriptions".to_owned(),
        }
    }

    /// The typed fields of this kind, in order.
    pub fn schema(&self) -> (r: Vec<FieldDef>)
        ensures
            schema_view(r@) == schema_of(*self),
    {
        let defs = match self {
            ResourceKind::Balance => vec![def("amount", ColumnType::I64), def("currency", ColumnType::Text)],
            ResourceKind::BalanceTransactions => vec![
                def("id", ColumnType::Text),
                def("amount", ColumnType::I64),
                def("currency", ColumnType::Text),
                def("description", ColumnType::Text),
                def("fee", ColumnType::I64),
                def("net", ColumnType::I64),
                def("status", ColumnType::Text),
                def("type", ColumnType::Text),
                def("created", ColumnType::Timestamp),
            ],
            ResourceKind::Charges => vec![
                def("id", ColumnType::Text),
                def("amount", ColumnType::I64),
                def("currency", ColumnType::Text),
                def("customer", ColumnType::Text),
                def("description", ColumnType::Text),
                def("invoice", ColumnType::Text),
                def("payment_intent", ColumnType::Text),
                def("status", ColumnType::Text),
                def("created", ColumnType::Timestamp),
            ],
            ResourceKind::Customers => vec![
                def("id", ColumnType::Text),
                def("email", ColumnType::Text),
                def("name", ColumnType::Text),
                def("description", ColumnType::Text),
                def("created", ColumnType::Timestamp),
            ],
            ResourceKind::Invoices => vec![
                def("id", ColumnType::Text),
                def("customer", ColumnType::Text),
                def("subscription", ColumnType::Text),
                def("status", ColumnType::Text),
                def("total", ColumnType::I64),
                def("currency", ColumnType::Text),
                def("period_start", ColumnType::Timestamp),
                def("period_end", ColumnType::Timestamp),
            ],
            ResourceKind::PaymentIntents => vec![
                def("id", ColumnType::Text),
                def("customer", ColumnType::Text),
                def("amount", ColumnType::I64),
                def("currency", ColumnType::Text),
                def("payment_method", ColumnType::Text),
                def("created", ColumnType::Timestamp),
            ],
            ResourceKind::Products => vec![
                def("id", ColumnType::Text),
                def("name", ColumnType::Text),
                def("active", ColumnType::Bool),
                def("default_price", ColumnType::Text),
                def("description", ColumnType::Text),
                def("created", ColumnType::Timestamp),
                def("updated", ColumnType::Timestamp),
            ],
            ResourceKind::Subscriptions => vec![
                def("id", ColumnType::Text),
                def("customer", ColumnType::Text),
                def("currency", ColumnType::Text),
                def("current_period_start", ColumnType::Timestamp),
                def("current_period_end", ColumnType::Timestamp),
            ],
        };
        proof {
            assert(schema_view(defs@) =~= schema_of(*self));
        }
        defs
    }

    /// The key under which a list response of this kind holds its records.
    pub fn record_key(&self) -> (r: String)
        ensures
            r@ == record_key_of(*self),
    {
        match self {
            ResourceKind::Balance => "available".to_owned(),
            _ => "data".to_owned(),
        }
    }

    /// The shape of this kind's responses.
    pub fn envelope(&self) -> (r: Envelope)
        ensures
            r == envelope_of(*self),
    {
        match self {
            ResourceKind::Balance => Envelope::Object,
            _ => Envelope::List,
        }
    }

    /// The fields on which the upstream API filters a list of this kind.
    pub fn pushdown_fields(&self) -> (r: Vec<String>)
        ensures
            crate::json::strings_view(r@) == pushdown_fields_of(*self),
    {
        let fields = match self {
            ResourceKind::Balance => Vec::new(),
            ResourceKind::BalanceTransactions => vec!["payout".to_owned(), "type".to_owned()],
            ResourceKind::Charges => vec!["customer".to_owned()],
            ResourceKind::Customers => vec!["email".to_owned()],
            ResourceKind::Invoices => vec![
                "customer".to_owned(),
                "status".to_owned(),
                "subscription".to_owned(),
            ],
            ResourceKind::PaymentIntents => vec!["customer".to_owned()],
            ResourceKind::Products => vec!["active".to_owned()],
            ResourceKind::Subscriptions => vec![
                "customer".to_owned(),
                "price".to_owned(),
                "status".to_owned(),
            ],
        };
        proof {
            assert(crate::json::strings_view(fields@) =~= pushdown_fields_of(*self));
        }
        fields
    }

    /// Whether one record of this kind can be fetched by its identifier.
    pub fn direct_lookup(&self) -> (r: bool)
        ensures
            r == direct_lookup_of(*self),
    {
        match self {
            ResourceKind::Customers | ResourceKind::Products | ResourceKind::Subscriptions => true,
            _ => false,
        }
    }

    /// The registry's entry for this kind.
    pub fn describe(&self) -> (r: Resource)
        ensures
            r.describes(*self),
    {
        Resource {
            kind: *self,
            path: self.name(),
            fields: self.schema(),
            envelope: self.envelope(),
            record_key: self.record_key(),
            pushdown_fields: self.pushdown_fields(),
            direct_lookup: self.direct_lookup(),
        }
    }
}

/// The registry's entry for the resource named `name`; an unknown name is
/// refused, and nothing is said of it.
pub fn resource(name: &str) -> (r: Result<Resource, ConfigError>)
    ensures
        match kind_of_name(name@) {
            Some(kind) => r is Ok && r->Ok_0.describes(kind),
            None => r is Err && r->Err_0 == ConfigError::UnsupportedResource,
        },
{
    match ResourceKind::from_name(name) {
        Ok(kind) => Ok(kind.describe()),
        Err(e) => Err(e),
    }
}

/// The type that `schema` gives the first field named `name`.
pub open spec fn field_type(schema: SchemaV, name: Seq<char>) -> Option<ColumnType>
    decreases schema.len(),
{
    if schema.len() == 0 {
        None
    } else {
        match field_type(schema.drop_last(), name) {
            Some(ty) => Some(ty),
            None => if schema.last().0 == name {
                Some(schema.last().1)
            } else {
                None
            },
        }
    }
}

/// Each kind is the one that its name denotes.
pub proof fn lemma_kind_of_its_name(kind: ResourceKind)
    ensures
        kind_of_name(kind_name(kind)) == Some(kind),
{
    reveal_strlit("balance");
    reveal_strlit("balance_transactions");
    reveal_strlit("charges");
    reveal_strlit("customers");
    reveal_strlit("invoices");
    reveal_strlit("payment_intents");
    reveal_strlit("products");
    reveal_strlit("subscriptions");
    assert("balance"@.len() == 7);
    assert("balance_transactions"@.len() == 20);
    assert("charges"@[0] == 'c' && "charges"@.len() == 7);
    assert("customers"@.len() == 9);
    assert("invoices"@[0] == 'i' && "invoices"@.len() == 8);
    assert("payment_intents"@.len() == 15);
    assert("products"@[0] == 'p' && "products"@.len() == 8);
    assert("subscriptions"@.len() == 13);
}

/// A name that no field has is given no type.
pub proof fn lemma_field_type_absent(schema: SchemaV, name: Seq<char>)
    requires
        forall|i: int| 0 <= i < schema.len() ==> (#[trigger] schema[i]).0 != name,
    ensures
        field_type(schema, name) is None,
    decreases schema.len(),
{
    if schema.len() > 0 {
        let front = schema.drop_last();
        assert forall|i: int| 0 <= i < front.len() implies (#[trigger] front[i]).0 != name by {
            assert(front[i] == schema[i]);
        }
        lemma_field_type_absent(front, name);
        assert(schema[schema.len() - 1] == schema.last());
    }
}

/// No kind has a field named `attrs`: the name is free for the column that
/// carries the whole record.
pub proof fn lemma_attrs_reserved(kind: ResourceKind)
    ensures
        field_type(schema_of(kind), "attrs"@) is None,
{
    reveal_strlit("attrs");
    reveal_strlit("id");
    reveal_strlit("amount");
    reveal_strlit("currency");
    reveal_strlit("description");
    reveal_strlit("fee");
    reveal_strlit("net");
    reveal_strlit("status");
    reveal_strlit("type");
    reveal_strlit("created");
    reveal_strlit("customer");
    reveal_strlit("invoice");
    reveal_strlit("payment_intent");
    reveal_strlit("email");
    reveal_strlit("name");
    reveal_strlit("subscription");
    reveal_strlit("total");
    reveal_strlit("period_start");
    reveal_strlit("period_end");
    reveal_strlit("payment_method");
    reveal_strlit("active");
    reveal_strlit("default_price");
    reveal_strlit("updated");
    reveal_strlit("current_period_start");
    reveal_strlit("current_period_end");
    let attrs = "attrs"@;
    assert(attrs.len() == 5 && attrs[0] == 'a' && attrs[1] == 't');
    assert("email"@[0] == 'e');
    assert("total"@[0] == 't');
    let schema = schema_of(kind);
    assert forall|i: int| 0 <= i < schema.len() implies (#[trigger] schema[i]).0 != attrs by {
        let name = schema[i].0;
        assert(name.len() != 5 || name[0] != 'a');
    }
    lemma_field_type_absent(schema, attrs);
}

/// Looks up the type of the first field named `name`.
pub fn find_field(schema: &Vec<FieldDef>, name: &str) -> (r: Option<ColumnType>)
    ensures
        r == field_type(schema_view(schema@), name@),
{
    let mut found: Option<ColumnType> = None;
    let mut i: usize = 0;
    while i < schema.len()
        invariant
            i <= schema.len(),
            found == field_type(schema_view(schema@).take(i as int), name@),
        decreases schema.len() - i,
    {
        proof {
            let next = schema_view(schema@).take(i + 1);
            assert(next.drop_last() == schema_view(schema@).take(i as int));
            assert(next.last() == schema@[i as int]@);
        }
        if found.is_none() && same_text(schema[i].name.as_str(), name) {
            found = Some(schema[i].ty);
        }
        i += 1;
    }
    proof {
        assert(schema_view(schema@).take(schema.len() as int) == schema_view(schema@));
    }
    found
}

} // verus!
