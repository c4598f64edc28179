//! The session: the adapter in use, the connected peripheral, and the
//! characteristics discovered on it.

use vstd::prelude::*;

use crate::gatt::{dedupe_by_uuid, distinct_by_uuid, uuids_distinct, Characteristic};

verus! {

/// The state of the one session, generic in the platform's handles: `A` is
/// an adapter, `P` a peripheral. The handles are kept and handed out, never
/// looked into.
pub struct BluetoothConnection<A, P> {
    adapter: Option<A>,
    peripheral: Option<P>,
    characteristics: Vec<Characteristic>,
}

/// The mathematical value of a [`BluetoothConnection`].
pub struct SessionView<A, P> {
    /// The adapter in use, once one was acquired.
    pub adapter: Option<A>,
    /// The connected peripheral; `None` means disconnected.
    pub peripheral: Option<P>,
    /// The characteristics discovered on the connected peripheral, in order.
    pub characteristics: Seq<Characteristic>,
}

impl<A, P> SessionView<A, P> {
    /// Characteristics are held only while a peripheral is, and no UUID
    /// occurs twice among them.
    pub open spec fn well_formed(self) -> bool {
        &&& self.peripheral is None ==> self.characteristics.len() == 0
        &&& uuids_distinct(self.characteristics)
    }

    /// The session before anything happened.
    pub open spec fn fresh() -> Self {
        SessionView { adapter: None, peripheral: None, characteristics: Seq::empty() }
    }

    /// The session with `adapter` in place of any adapter held before.
    pub open spec fn with_adapter(self, adapter: A) -> Self {
        SessionView { adapter: Some(adapter), ..self }
    }

    /// The session connected to `peripheral`, remembering of `discovered`
    /// the first characteristic of each UUID.
    pub open spec fn attached(self, peripheral: P, discovered: Seq<Characteristic>) -> Self {
        SessionView {
            peripheral: Some(peripheral),
            characteristics: distinct_by_uuid(discovered),
            ..self
        }
    }

    /// The session with no peripheral and no characteristics.
    pub open spec fn cleared(self) -> Self {
        SessionView { peripheral: None, characteristics: Seq::empty(), ..self }
    }
}

impl<A, P> View for BluetoothConnection<A, P> {
    type V = SessionView<A, P>;

    closed spec fn view(&self) -> SessionView<A, P> {
        SessionView {
            adapter: self.adapter,
            peripheral: self.peripheral,
            characteristics: self.characteristics@,
        }
    }
}

impl<A, P> BluetoothConnection<A, P> {
    #[verifier::type_invariant]
    spec fn inv(self) -> bool {
        self@.well_formed()
    }

    /// A session with no adapter and no peripheral.
    pub fn new() -> (connection: Self)
        ensures
            connection@ == SessionView::<A, P>::fresh(),
            connection@.well_formed(),
    {
        BluetoothConnection { adapter: None, peripheral: None, characteristics: Vec::new() }
    }

    /// The adapter in use.
    pub fn adapter(&self) -> (adapter: Option<&A>)
        ensures
            match adapter {
                Some(held) => self@.adapter == Some(*held),
                None => self@.adapter is None,
            },
            self@.well_formed(),
    {
        proof {
            use_type_invariant(self);
        }
        self.adapter.as_ref()
    }

    /// Whether an adapter has been acquired.
    pub fn is_initialized(&self) -> (yes: bool)
        ensures
            yes == self@.adapter is Some,
            self@.well_formed(),
    {
        proof {
            use_type_invariant(self);
        }
        self.adapter.is_some()
    }

    /// The connected peripheral.
    pub fn peripheral(&self) -> (peripheral: Option<&P>)
        ensures
            match peripheral {
                Some(held) => self@.peripheral == Some(*held),
                None => self@.peripheral is None,
            },
            self@.well_formed(),
    {
        proof {
            use_type_invariant(self);
        }
        self.peripheral.as_ref()
    }

    /// Whether a peripheral is held.
    pub fn has_peripheral(&self) -> (yes: bool)
        ensures
            yes == self@.peripheral is Some,
            self@.well_formed(),
    {
        proof {
            use_type_invariant(self);
        }
        self.peripheral.is_some()
    }

    /// The characteristics discovered on the connected peripheral.
    pub fn characteristics(&self) -> (characteristics: &Vec<Characteristic>)
        ensures
            characteristics@ == self@.characteristics,
            self@.well_formed(),
    {
        proof {
            use_type_invariant(self);
        }
        &self.characteristics
    }

    /// Puts `adapter` in use, in place of any adapter held before. The
    /// connection is left as it is.
    pub fn install_adapter(&mut self, adapter: A)
        ensures
            final(self)@ == old(self)@.with_adapter(adapter),
            final(self)@.well_formed(),
    {
        proof {
            use_type_invariant(&*self);
        }
        self.adapter = Some(adapter);
    }

    /// Records a connection: the peripheral, and of the characteristics
    /// discovered on it the first of each UUID. Whatever was recorded of an
    /// earlier connection is replaced.
    pub fn attach(&mut self, peripheral: P, discovered: &Vec<Characteristic>)
        ensures
            final(self)@ == old(self)@.attached(peripheral, discovered@),
            final(self)@.well_formed(),
    {
        proof {
            use_type_invariant(&*self);
        }
        let kept = dedupe_by_uuid(discovered);
        self.peripheral = Some(peripheral);
        self.characteristics = kept;
    }

    /// Forgets the peripheral and its characteristics, whether or not any
    /// were held.
    pub fn clear(&mut self)
        ensures
            final(self)@ == old(self)@.cleared(),
            final(self)@.well_formed(),
    {
        proof {
            use_type_invariant(&*self);
        }
        self.characteristics = Vec::new();
        self.peripheral = None;
    }
}

} // verus!
