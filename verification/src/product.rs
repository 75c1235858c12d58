//! Product identity for multi-tenant services.
use vstd::prelude::*;

use crate::error::ConfigError;

verus! {

/// A character allowed in a product id: a lowercase ASCII letter, an ASCII
/// digit or a hyphen.
pub open spec fn is_product_id_char(c: char) -> bool {
    ('a' <= c && c <= 'z') || ('0' <= c && c <= '9') || c == '-'
}

/// A well-formed product id: not empty, and made of allowed characters only.
pub open spec fn is_valid_product_id(id: Seq<char>) -> bool {
    id.len() > 0 && forall|i: int| 0 <= i < id.len() ==> is_product_id_char(#[trigger] id[i])
}

/// Each product has its own isolated data and configuration.
#[derive(Debug, Clone)]
pub struct ProductConfig {
    /// Product identifier (e.g. "lilitu").
    pub product_id: String,
    /// Display name of the product.
    pub product_name: Option<String>,
    /// Tenant id for database scoping.
    pub tenant_id: Option<String>,
}

impl ProductConfig {
    /// The name to show: the product name if one is set, else the id.
    pub open spec fn spec_display_name(self) -> Seq<char> {
        match self.product_name {
            Some(name) => name@,
            None => self.product_id@,
        }
    }

    /// The tenant: the tenant id if one is set, else the product id.
    pub open spec fn spec_tenant_id(self) -> Seq<char> {
        match self.tenant_id {
            Some(tenant) => tenant@,
            None => self.product_id@,
        }
    }

    /// The product's display name, falling back to its id.
    pub fn display_name(&self) -> (r: &str)
        ensures
            r@ == self.spec_display_name(),
            self.product_name matches Some(name) ==> r@ == name@,
            self.product_name is None ==> r@ == self.product_id@,
    {
        match &self.product_name {
            Some(name) => name.as_str(),
            None => self.product_id.as_str(),
        }
    }

    /// The tenant id, falling back to the product id.
    pub fn tenant_id(&self) -> (r: &str)
        ensures
            r@ == self.spec_tenant_id(),
            self.tenant_id matches Some(tenant) ==> r@ == tenant@,
            self.tenant_id is None ==> r@ == self.product_id@,
    {
        match &self.tenant_id {
            Some(tenant) => tenant.as_str(),
            None => self.product_id.as_str(),
        }
    }

    /// Checks that the product id is not empty and is lowercase alphanumeric
    /// with hyphens.
    pub fn validate(&self) -> (r: Result<(), ConfigError>)
        ensures
            r is Ok <==> is_valid_product_id(self.product_id@),
            r is Ok ==> self.product_id@.len() > 0 && forall|i: int|
                0 <= i < self.product_id@.len() ==> {
                    let c = #[trigger] self.product_id@[i];
                    ('a' <= c && c <= 'z') || ('0' <= c && c <= '9') || c == '-'
                },
            (exists|i: int|
                0 <= i < self.product_id@.len() && 'A' <= #[trigger] self.product_id@[i]
                    && self.product_id@[i] <= 'Z') ==> (r matches Err(ConfigError::Validation(m))
                && m@ == "Product ID must be lowercase alphanumeric with hyphens"@),
            self.product_id@.len() == 0 ==> (r matches Err(ConfigError::Validation(m))
                && m@ == "Product ID cannot be empty"@),
            self.product_id@.len() > 0 && !is_valid_product_id(self.product_id@) ==> (r matches Err(
                ConfigError::Validation(m),
            ) && m@ == "Product ID must be lowercase alphanumeric with hyphens"@),
    {
        let id = self.product_id.as_str();
        if id.is_empty() {
            return Err(ConfigError::Validation(String::from_str("Product ID cannot be empty")));
        }
        for c in it: id.chars()
            invariant
                id@ == self.product_id@,
                it.seq() == id@,
                forall|j: int| 0 <= j < it.index() ==> is_product_id_char(#[trigger] id@[j]),
        {
            if !(('a' <= c && c <= 'z') || ('0' <= c && c <= '9') || c == '-') {
                return Err(
                    ConfigError::Validation(
                        String::from_str("Product ID must be lowercase alphanumeric with hyphens"),
                    ),
                );
            }
        }
        Ok(())
    }
}

/// A product id is accepted exactly when it is non-empty and each of its
/// characters is a lowercase ASCII letter, an ASCII digit or `-`; so an id
/// with an uppercase letter, `_`, a space or any non-ASCII character fails.
pub proof fn valid_ids_are_lowercase_alphanumeric(id: Seq<char>)
    ensures
        is_valid_product_id(id) <==> id.len() > 0 && forall|i: int|
            0 <= i < id.len() ==> {
                let c = #[trigger] id[i];
                ('a' <= c && c <= 'z') || ('0' <= c && c <= '9') || c == '-'
            },
        forall|i: int| 0 <= i < id.len() && 'A' <= #[trigger] id[i] && id[i] <= 'Z' ==> !is_valid_product_id(id),
        forall|i: int| 0 <= i < id.len() && (#[trigger] id[i] as u32) >= 128 ==> !is_valid_product_id(id),
{
}

/// The display name depends on the product name and id only, and the tenant
/// on the tenant id and product id only: changing the other optional field
/// changes neither.  Without its own field each falls back to the product id.
pub proof fn fallbacks_use_only_their_own_field(p: ProductConfig, q: ProductConfig)
    ensures
        p.product_name is None ==> p.spec_display_name() == p.product_id@,
        p.tenant_id is None ==> p.spec_tenant_id() == p.product_id@,
        p.product_name matches Some(n) ==> p.spec_display_name() == n@,
        p.tenant_id matches Some(t) ==> p.spec_tenant_id() == t@,
        p.product_id == q.product_id && p.product_name == q.product_name ==> p.spec_display_name()
            == q.spec_display_name(),
        p.product_id == q.product_id && p.tenant_id == q.tenant_id ==> p.spec_tenant_id()
            == q.spec_tenant_id(),
{
}

} // verus!
