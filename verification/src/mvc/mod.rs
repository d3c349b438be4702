mod multiton;
pub use multiton::Multiton;

mod view_state;
pub use view_state::delivery_of;
pub use view_state::delivery_views;
pub use view_state::law_first_mediator_registration_wins;
pub use view_state::law_lists_are_never_left_empty;
pub use view_state::law_mediator_round_trip;
pub use view_state::law_mediator_round_trip_restores_observers;
pub use view_state::law_registered_mediator_hears_every_interest;
pub use view_state::law_registered_mediator_is_wired;
pub use view_state::law_registration_order;
pub use view_state::law_round_is_one_delivery_per_observer;
pub use view_state::law_removed_mediator_leaves_no_observer;
pub use view_state::lemma_released_nothing_to_take;
pub use view_state::lemma_released_owns_nothing;
pub use view_state::lemma_released_push;
pub use view_state::lemma_subscribed_adds_own;
pub use view_state::lemma_subscribed_elsewhere;
pub use view_state::lemma_subscribed_reaches;
pub use view_state::lemma_unsubscribed_clears;
pub use view_state::lemma_unsubscribed_keeps_registry;
pub use view_state::lemma_unsubscribed_lists;
pub use view_state::mediator_observer;
pub use view_state::not_owned_by;
pub use view_state::released;
pub use view_state::Delivery;
pub use view_state::DeliveryView;
pub use view_state::MediatorRecord;
pub use view_state::Receipt;
pub use view_state::ViewState;

mod view;
pub use view::name_views;
pub use view::observer_views;
pub use view::Seated;
pub use view::View;

mod controller;
pub use controller::command_observer;
pub use controller::law_command_round_trip;
pub use controller::law_command_round_trip_restores_view;
pub use controller::law_one_observer_per_command;
pub use controller::view_after_binding;
pub use controller::view_after_unbinding;
pub use controller::Binding;
pub use controller::Controller;

mod model;
pub use model::Model;
pub use model::Shelf;
