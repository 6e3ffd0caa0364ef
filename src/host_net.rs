use vstd::prelude::*;
use vstd::std_specs::bits::u32_leading_ones;
use vstd::string::StringExecFns;

use crate::ipv4::{Ipv4Address, has_leading_ones, ipv4_bits, ipv4_text, parse_ipv4, prefix_len};

verus! {

/// The environment variables that carry the static network plan.
#[derive(Clone, Copy, Debug, PartialEq, Eq, Structural)]
pub enum NetworkVar {
    Address,
    Mask,
    Router,
}

impl NetworkVar {
    /// The name of the environment variable.
    pub fn name(&self) -> (r: &'static str)
        ensures
            *self == NetworkVar::Address ==> r == "KRUN_NETWORK_ADDRESS",
            *self == NetworkVar::Mask ==> r == "KRUN_NETWORK_MASK",
            *self == NetworkVar::Router ==> r == "KRUN_NETWORK_ROUTER",
    {
        match self {
            NetworkVar::Address => "KRUN_NETWORK_ADDRESS",
            NetworkVar::Mask => "KRUN_NETWORK_MASK",
            NetworkVar::Router => "KRUN_NETWORK_ROUTER",
        }
    }
}

/// Why the static network plan could not be read.
#[derive(Clone, Copy, Debug, PartialEq, Eq, Structural)]
pub enum ConfigError {
    /// The variable is not set.
    Missing(NetworkVar),
    /// The variable does not hold a dotted-decimal IPv4 address.
    Invalid(NetworkVar),
}

/// The static network plan: the guest's address and prefix length, and the
/// gateway that the default route and the name server go through.
#[derive(Clone, Copy, Debug, PartialEq, Eq, Structural)]
pub struct StaticPlan {
    pub address: Ipv4Address,
    pub prefix: u8,
    pub router: Ipv4Address,
}

/// One request to the kernel's network configuration channel, made after the
/// link named by `interface_name` has been looked up.
#[derive(Clone, Copy, Debug, PartialEq, Eq, Structural)]
pub enum NetRequest {
    AddAddress { link: u32, address: Ipv4Address, prefix: u8 },
    LinkUp { link: u32 },
    AddDefaultRoute { gateway: Ipv4Address },
}

/// The address that one variable's value gives, or why it gives none.
pub open spec fn var_address(value: Option<Seq<char>>, var: NetworkVar) -> Result<
    Ipv4Address,
    ConfigError,
> {
    match value {
        None => Err(ConfigError::Missing(var)),
        Some(s) => match parse_ipv4(s) {
            Some(x) => Ok(x),
            None => Err(ConfigError::Invalid(var)),
        },
    }
}

/// The plan that the three variables' values give, read in the order address,
/// mask, router; the first variable that is missing or invalid is the error.
pub open spec fn static_plan_of(
    address: Option<Seq<char>>,
    mask: Option<Seq<char>>,
    router: Option<Seq<char>>,
) -> Result<StaticPlan, ConfigError> {
    match var_address(address, NetworkVar::Address) {
        Err(e) => Err(e),
        Ok(a) => match var_address(mask, NetworkVar::Mask) {
            Err(e) => Err(e),
            Ok(m) => match var_address(router, NetworkVar::Router) {
                Err(e) => Err(e),
                Ok(r) => Ok(
                    StaticPlan {
                        address: a,
                        prefix: u32_leading_ones(ipv4_bits(m)) as u8,
                        router: r,
                    },
                ),
            },
        },
    }
}

pub open spec fn opt_view(v: Option<&str>) -> Option<Seq<char>> {
    match v {
        Some(s) => Some(s@),
        None => None,
    }
}

/// The requests that configure the network once the link lookup has answered:
/// where the link exists, give it the address and bring it up; in every case add
/// the default route through the gateway.
pub open spec fn requests_of(plan: StaticPlan, link: Option<u32>) -> Seq<NetRequest> {
    let route = seq![NetRequest::AddDefaultRoute { gateway: plan.router }];
    match link {
        Some(l) => seq![
            NetRequest::AddAddress { link: l, address: plan.address, prefix: plan.prefix },
            NetRequest::LinkUp { link: l },
        ] + route,
        None => route,
    }
}

/// The name server line written to the resolver configuration.
pub open spec fn resolv_conf_of(plan: StaticPlan) -> Seq<char> {
    "nameserver "@ + ipv4_text(plan.router)
}

fn read_var(value: Option<&str>, var: NetworkVar) -> (r: Result<Ipv4Address, ConfigError>)
    ensures
        r == var_address(opt_view(value), var),
{
    match value {
        None => Err(ConfigError::Missing(var)),
        Some(s) => match Ipv4Address::parse(s) {
            Some(x) => Ok(x),
            None => Err(ConfigError::Invalid(var)),
        },
    }
}

/// Reads the static network plan from the values of the three variables (`None`
/// where one is not set). The prefix length is the number of leading one bits of
/// the mask.
pub fn static_plan(address: Option<&str>, mask: Option<&str>, router: Option<&str>) -> (r: Result<
    StaticPlan,
    ConfigError,
>)
    ensures
        r == static_plan_of(opt_view(address), opt_view(mask), opt_view(router)),
        r matches Ok(p) ==> has_leading_ones(
            ipv4_bits(parse_ipv4(opt_view(mask).unwrap()).unwrap()),
            p.prefix as nat,
        ),
{
    let a = read_var(address, NetworkVar::Address)?;
    let m = read_var(mask, NetworkVar::Mask)?;
    let r = read_var(router, NetworkVar::Router)?;
    Ok(StaticPlan { address: a, prefix: prefix_len(m), router: r })
}

/// The name of the link that receives the address.
pub fn interface_name() -> (r: &'static str)
    ensures
        r == "eth0",
{
    "eth0"
}

impl StaticPlan {
    /// The requests to make once the lookup of the link has answered with its
    /// index, or with nothing where there is no such link.
    pub fn requests(&self, link: Option<u32>) -> (r: Vec<NetRequest>)
        ensures
            r@ == requests_of(*self, link),
    {
        let mut v: Vec<NetRequest> = Vec::new();
        if let Some(l) = link {
            v.push(NetRequest::AddAddress { link: l, address: self.address, prefix: self.prefix });
            v.push(NetRequest::LinkUp { link: l });
        }
        v.push(NetRequest::AddDefaultRoute { gateway: self.router });
        proof {
            assert(v@ =~= requests_of(*self, link));
        }
        v
    }

    /// The contents of the resolver configuration: one name server line that
    /// points at the gateway.
    pub fn resolv_conf(&self) -> (r: String)
        ensures
            r@ == resolv_conf_of(*self),
    {
        let s = String::from_str("nameserver ");
        s.concat(self.router.to_text().as_str())
    }
}

/// Where any of the three values is missing or does not write an address, no
/// plan comes out, so no request to the kernel can be formed; and where all three
/// write addresses, a plan does.
pub proof fn lemma_plan_needs_valid_env(
    address: Option<Seq<char>>,
    mask: Option<Seq<char>>,
    router: Option<Seq<char>>,
)
    ensures
        static_plan_of(address, mask, router) is Ok <==> (address is Some && parse_ipv4(
            address.unwrap(),
        ) is Some && mask is Some && parse_ipv4(mask.unwrap()) is Some && router is Some
            && parse_ipv4(router.unwrap()) is Some),
{
}

} // verus!
