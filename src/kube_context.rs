use vstd::prelude::*;

verus! {

/// A cluster connection descriptor together with the namespace it views.
///
/// The descriptor `C` is carried as it is: the controller never reads it.
#[derive(Debug, Clone)]
pub struct KubeContext<C> {
    config: C,
    namespace: String,
}

/// What a context holds, as plain values.
pub struct ContextView<C> {
    pub config: C,
    pub namespace: Seq<char>,
}

impl<C> View for KubeContext<C> {
    type V = ContextView<C>;

    closed spec fn view(&self) -> ContextView<C> {
        ContextView { config: self.config, namespace: self.namespace@ }
    }
}

impl<C> KubeContext<C> {
    pub fn new(config: C, namespace: String) -> (r: KubeContext<C>)
        ensures
            r@ == (ContextView { config, namespace: namespace@ }),
    {
        KubeContext { config, namespace }
    }

    pub fn get_config(&self) -> (r: &C)
        ensures
            *r == self@.config,
    {
        &self.config
    }

    pub fn get_namespace(&self) -> (r: String)
        ensures
            r@ == self@.namespace,
    {
        self.namespace.clone()
    }

    /// Replaces the namespace, keeping the descriptor.
    pub fn set_namespace(&mut self, namespace: String)
        ensures
            final(self)@ == (ContextView { config: old(self)@.config, namespace: namespace@ }),
    {
        self.namespace = namespace;
    }
}

} // verus!
