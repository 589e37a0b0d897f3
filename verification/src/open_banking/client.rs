//! Open Banking client construction. The product's flows are not
//! implemented; only the builder scaffolding exists.

use vstd::prelude::*;
use crate::client::{ClientBuilder, MissingClientAuthentication, MissingEnvironment};
use core::marker::PhantomData;

verus! {

/// A fresh Open Banking client builder with both slots still unfilled.
pub fn openbanking_client() -> (r: ClientBuilder<
    MissingEnvironment,
    MissingClientAuthentication,
    crate::OpenBankingClient,
>)
{
    ClientBuilder {
        environment: MissingEnvironment,
        authentication: MissingClientAuthentication,
        client_type: PhantomData,
    }
}

impl<E> ClientBuilder<E, MissingClientAuthentication, crate::OpenBankingClient> {
    /// Attaches the placeholder Open Banking credential; only available
    /// while the authentication slot is unfilled.
    pub fn with_authentication(
        self,
        authentication: crate::OpenBankingAuthentication,
    ) -> (r: ClientBuilder<E, crate::OpenBankingAuthentication, crate::OpenBankingClient>)
        ensures
            r.environment == self.environment,
    {
        ClientBuilder {
            environment: self.environment,
            authentication,
            client_type: PhantomData,
        }
    }
}

} // verus!
