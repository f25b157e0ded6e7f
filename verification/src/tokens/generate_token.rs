//! The operation that creates a token for a project.

use vstd::prelude::*;
use vstd::string::*;
use crate::executor::QueryBody;

verus! {

/// The name of the operation.
pub const OPERATION_NAME: &'static str = "GenerateToken";

/// The text of the operation.
pub const QUERY: &'static str =
    "mutation GenerateToken($id: String!, $name: String!, $expiresAt: String) {\n  createProjectToken(\n    object: { projectId: $id, name: $name, expiresAt: $expiresAt }\n  ) {\n    tokenId\n    tokenValue\n  }\n}\n";

/// The operation, as a marker type.
#[derive(Clone, Copy, Debug)]
pub struct GenerateToken;

/// What the operation takes: the project, the token's name and, where the
/// token expires, the time at which it does.
#[derive(Clone, Debug)]
pub struct Variables {
    pub id: String,
    pub name: String,
    pub expires_at: Option<String>,
}

/// What the operation gives back.
#[derive(Clone, Debug)]
pub struct ResponseData {
    pub create_project_token: GenerateTokenCreateProjectToken,
}

/// The token that was created.
#[derive(Clone, Debug)]
pub struct GenerateTokenCreateProjectToken {
    pub token_id: String,
    pub token_value: String,
}

impl GenerateToken {
    /// The request that creates a token with the given variables.
    pub fn build_query(variables: Variables) -> (body: QueryBody<Variables>)
        ensures
            body.variables == variables,
            body.query@ == QUERY@,
            body.operation_name@ == OPERATION_NAME@,
    {
        QueryBody { variables, query: QUERY, operation_name: OPERATION_NAME }
    }
}

} // verus!
