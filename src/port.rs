use vstd::prelude::*;

verus! {

/// The port the development server always listens on.
pub const DEV_PORT: u16 = 1420;

/// First port probed in a production build.
pub const FIRST_PROBED_PORT: u16 = 20000;

/// Last port probed in a production build.
pub const LAST_PROBED_PORT: u16 = 65535;

/// How the application was built: development builds talk to a fixed dev
/// server port, production builds look for a free one.
#[derive(PartialEq, Eq, Structural, Clone, Copy, Debug)]
pub enum BuildMode {
    Development,
    Production,
}

/// Every port of the probed range was refused.
#[derive(PartialEq, Eq, Structural, Clone, Copy, Debug)]
pub enum PortError {
    Exhausted,
}

impl PortError {
    /// A human-readable description of the error.
    pub fn message(&self) -> (r: &'static str)
        ensures
            r@ == "No available port found in range 20000-65535"@,
    {
        "No available port found in range 20000-65535"
    }
}

/// A port the application may listen on. In development mode this is
/// `DEV_PORT`, and `probe` is never called. In production mode the ports from
/// `FIRST_PROBED_PORT` to `LAST_PROBED_PORT` are handed to `probe` in
/// ascending order, which reports whether an exclusive bind on loopback
/// succeeded (and releases it); the first accepted port is returned, and
/// every port before it was refused. `PortError::Exhausted` comes only after
/// every port of the range was refused.
pub fn find_available_port<F: Fn(u16) -> bool>(mode: BuildMode, probe: F) -> (r: Result<
    u16,
    PortError,
>)
    requires
        forall|p: u16| #[trigger] call_requires(probe, (p,)),
    ensures
        mode == BuildMode::Development ==> r == Ok::<u16, PortError>(DEV_PORT),
        mode == BuildMode::Production ==> match r {
            Ok(p) => {
                &&& FIRST_PROBED_PORT <= p <= LAST_PROBED_PORT
                &&& call_ensures(probe, (p,), true)
                &&& forall|q: u16|
                    FIRST_PROBED_PORT <= q < p ==> #[trigger] call_ensures(probe, (q,), false)
            },
            Err(PortError::Exhausted) => forall|q: u16|
                FIRST_PROBED_PORT <= q <= LAST_PROBED_PORT ==> #[trigger] call_ensures(
                    probe,
                    (q,),
                    false,
                ),
        },
{
    match mode {
        BuildMode::Development => Ok(DEV_PORT),
        BuildMode::Production => {
            let mut port: u32 = FIRST_PROBED_PORT as u32;
            while port <= LAST_PROBED_PORT as u32
                invariant
                    mode == BuildMode::Production,
                    FIRST_PROBED_PORT <= port <= LAST_PROBED_PORT + 1,
                    forall|p: u16| #[trigger] call_requires(probe, (p,)),
                    forall|q: u16|
                        FIRST_PROBED_PORT <= q < port ==> #[trigger] call_ensures(
                            probe,
                            (q,),
                            false,
                        ),
                decreases LAST_PROBED_PORT + 1 - port,
            {
                let candidate = port as u16;
                if probe(candidate) {
                    return Ok(candidate);
                }
                port = port + 1;
            }
            Err(PortError::Exhausted)
        },
    }
}

} // verus!
