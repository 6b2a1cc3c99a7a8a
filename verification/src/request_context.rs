//! The part of an authenticated request context that authorization reads:
//! the principal's tenant, app and granted permissions.

use vstd::prelude::*;
use crate::error::{WebFrameworkError, WebFrameworkErrorKind, WebFrameworkErrorView, error_view};

verus! {

/// The authenticated principal of a request.
#[derive(Clone, Debug)]
pub struct WebRequestPrincipal {
    pub tenant_id: String,
    pub app_id: String,
    pub permission_scope: Vec<String>,
}

/// A request context; `principal` is `None` for anonymous requests.
#[derive(Clone, Debug)]
pub struct WebRequestContext {
    pub principal: Option<WebRequestPrincipal>,
}

pub open spec fn seq_has_text(list: Seq<String>, text: Seq<char>) -> bool {
    exists|i: int| 0 <= i < list.len() && #[trigger] list[i]@ == text
}

impl WebRequestContext {
    /// The permission is in the principal's permission scope.
    pub open spec fn grants(&self, permission: Seq<char>) -> bool {
        match self.principal {
            Some(p) => seq_has_text(p.permission_scope@, permission),
            None => false,
        }
    }

    /// The authenticated tenant: present when a principal with a non-empty
    /// tenant id is attached.
    pub open spec fn tenant(&self) -> Option<Seq<char>> {
        match self.principal {
            Some(p) => if p.tenant_id@.len() > 0 {
                Some(p.tenant_id@)
            } else {
                None
            },
            None => None,
        }
    }

    /// The authenticated app, under the same rule as `tenant`.
    pub open spec fn app(&self) -> Option<Seq<char>> {
        match self.principal {
            Some(p) => if p.app_id@.len() > 0 {
                Some(p.app_id@)
            } else {
                None
            },
            None => None,
        }
    }

    pub fn has_permission(&self, permission: &str) -> (r: bool)
        ensures
            r == self.grants(permission@),
    {
        match &self.principal {
            None => false,
            Some(p) => {
                let wanted = permission.to_owned();
                let n = p.permission_scope.len();
                let mut i: usize = 0;
                while i < n
                    invariant
                        n == p.permission_scope@.len(),
                        self.principal == Some(*p),
                        wanted@ == permission@,
                        0 <= i <= n,
                        forall|j: int| 0 <= j < i ==> p.permission_scope@[j]@ != permission@,
                    decreases n - i,
                {
                    if p.permission_scope[i] == wanted {
                        assert(p.permission_scope@[i as int]@ == permission@);
                        return true;
                    }
                    i = i + 1;
                }
                false
            },
        }
    }

    pub fn require_tenant_id(&self) -> (r: Result<&str, WebFrameworkError>)
        ensures
            match r {
                Ok(t) => self.tenant() == Some(t@),
                Err(e) => self.tenant() is None && e@ == missing_tenant_error(),
            },
    {
        match &self.principal {
            Some(p) => {
                let t = p.tenant_id.as_str();
                if t.is_empty() {
                    Err(WebFrameworkError::context_not_injected("tenant_id is required"))
                } else {
                    Ok(t)
                }
            },
            None => Err(WebFrameworkError::context_not_injected("tenant_id is required")),
        }
    }

    pub fn require_app_id(&self) -> (r: Result<&str, WebFrameworkError>)
        ensures
            match r {
                Ok(a) => self.app() == Some(a@),
                Err(e) => self.app() is None && e@ == missing_app_error(),
            },
    {
        match &self.principal {
            Some(p) => {
                let a = p.app_id.as_str();
                if a.is_empty() {
                    Err(WebFrameworkError::context_not_injected("app_id is required"))
                } else {
                    Ok(a)
                }
            },
            None => Err(WebFrameworkError::context_not_injected("app_id is required")),
        }
    }
}

pub open spec fn missing_tenant_error() -> WebFrameworkErrorView {
    error_view(WebFrameworkErrorKind::ContextNotInjected, "tenant_id is required"@)
}

pub open spec fn missing_app_error() -> WebFrameworkErrorView {
    error_view(WebFrameworkErrorKind::ContextNotInjected, "app_id is required"@)
}

} // verus!
