use vstd::prelude::*;

verus! {

/// How an account reaches the network. The account only carries it along.
#[derive(Debug, PartialEq, Eq)]
pub struct ClientOptions {
    /// The URL of the node.
    pub node: String,
}

impl View for ClientOptions {
    type V = Seq<char>;

    open spec fn view(&self) -> Seq<char> {
        self.node@
    }
}

impl ClientOptions {
    /// Options that name the given node.
    pub fn new(node: &str) -> (options: Self)
        ensures
            options@ == node@,
            options.node@ == node@,
    {
        ClientOptions { node: node.to_owned() }
    }
}

/// Client options say their node.
pub proof fn lemma_client_options_say(options: ClientOptions)
    ensures
        options@ == options.node@,
{
}

impl Clone for ClientOptions {
    fn clone(&self) -> (copy: Self)
        ensures
            copy == *self,
    {
        ClientOptions { node: self.node.clone() }
    }
}

} // verus!
