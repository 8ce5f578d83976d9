use commitcanvas::model::{
    ArrowDetails, Event, EventHistory, Guid, Model, Options, PartialShapeConfig, ShapeConfig,
    ShapeDetails,
};
use commitcanvas::types::Point;
use commitcanvas::view::url::UrlView;
use commitcanvas::view::{View, ViewError};
use std::sync::{Arc, Mutex};

#[derive(Debug, PartialEq, Clone)]
enum Seen {
    Reload(Vec<(Guid, f32)>),
    Add(Guid, f32),
    Remove(Guid, f32),
    Modify(Guid, f32, f32, bool),
    Checkpoint,
}

struct Recorder {
    seen: Arc<Mutex<Vec<Seen>>>,
    fail: bool,
}

impl Recorder {
    fn boxed(seen: &Arc<Mutex<Vec<Seen>>>, fail: bool) -> Box<dyn View<f32>> {
        Box::new(Recorder { seen: seen.clone(), fail })
    }
}

impl View<f32> for Recorder {
    fn process_event(&mut self, event: commitcanvas::view::Event<f32>) -> Result<(), ViewError> {
        let seen = match event {
            commitcanvas::view::Event::Reload { shapes } => {
                let mut pairs: Vec<(Guid, f32)> =
                    shapes.iter().map(|pair| (*pair.0, pair.1.end.x)).collect();
                pairs.sort_by_key(|pair| pair.0);
                Seen::Reload(pairs)
            }
            commitcanvas::view::Event::Modify { event } => match event {
                EventHistory::Add { guid, config } => Seen::Add(guid, config.end.x),
                EventHistory::Remove { guid, config } => Seen::Remove(guid, config.end.x),
                EventHistory::Modify { guid, from, to, committed } => {
                    Seen::Modify(guid, from.end.x, to.end.x, committed)
                }
                EventHistory::Checkpoint => Seen::Checkpoint,
            },
        };
        self.seen.lock().unwrap().push(seen);
        if self.fail {
            Err(ViewError { message: String::from("cannot draw") })
        } else {
            Ok(())
        }
    }
}

fn arrow(end: f32) -> ShapeConfig<f32> {
    ShapeConfig {
        start: Point { x: 0.0, y: 0.0 },
        end: Point { x: end, y: end },
        details: ShapeDetails::Arrow(ArrowDetails::default()),
        options: Options::default(),
    }
}

fn move_end(to: f32) -> PartialShapeConfig<f32> {
    PartialShapeConfig {
        start: None,
        end: Some(Point { x: to, y: to }),
        details: None,
        options: None,
    }
}

fn take(seen: &Arc<Mutex<Vec<Seen>>>) -> Vec<Seen> {
    std::mem::take(&mut *seen.lock().unwrap())
}

#[test]
fn orphan_remove_is_silent() {
    let seen = Arc::new(Mutex::new(vec![]));
    let mut model: Model<f32> = Model::new();
    model.add_view(Recorder::boxed(&seen, false));
    assert_eq!(take(&seen), vec![Seen::Reload(vec![])]);

    let before = model.history().len();
    assert_eq!(model.process_event(Event::Remove { guid: 99 }), None);
    assert_eq!(model.history().len(), before);
    assert_eq!(take(&seen), vec![]);

    model.process_event(Event::Add { guid: None, config: arrow(10.0) });
    take(&seen);
    assert_eq!(model.process_event(Event::Remove { guid: 99 }), None);
    assert_eq!(
        model.process_event(Event::Modify { guid: 99, config: move_end(1.0) }),
        None
    );
    assert_eq!(take(&seen), vec![]);
}

#[test]
fn late_view_gets_reload_and_failing_view_is_tolerated() {
    let first = Arc::new(Mutex::new(vec![]));
    let second = Arc::new(Mutex::new(vec![]));
    let mut model: Model<f32> = Model::new();
    model.add_view(Recorder::boxed(&first, true));
    assert_eq!(model.process_event(Event::Add { guid: None, config: arrow(10.0) }), Some(0));
    assert_eq!(model.process_event(Event::Add { guid: None, config: arrow(20.0) }), Some(1));
    model.add_view(Recorder::boxed(&second, false));
    assert_eq!(model.process_event(Event::Remove { guid: 0 }), Some(0));

    assert_eq!(
        take(&first),
        vec![
            Seen::Reload(vec![]),
            Seen::Add(0, 10.0),
            Seen::Add(1, 20.0),
            Seen::Remove(0, 10.0)
        ]
    );
    assert_eq!(
        take(&second),
        vec![Seen::Reload(vec![(0, 10.0), (1, 20.0)]), Seen::Remove(0, 10.0)]
    );
    assert!(model.get_shape(0).is_none());
    assert_eq!(*model.get_shape(1).unwrap(), arrow(20.0));
    assert!(matches!(model.history()[2], EventHistory::Remove { guid: 0, .. }));
}

#[test]
fn views_see_every_step_of_a_drag() {
    let seen = Arc::new(Mutex::new(vec![]));
    let mut model: Model<f32> = Model::new();
    model.add_view(Recorder::boxed(&seen, false));
    model.process_event(Event::Add { guid: None, config: arrow(10.0) });
    model.process_event(Event::Modify { guid: 0, config: move_end(20.0) });
    model.process_event(Event::Modify { guid: 0, config: move_end(30.0) });
    model.process_event(Event::Checkpoint);
    assert_eq!(
        take(&seen),
        vec![
            Seen::Reload(vec![]),
            Seen::Add(0, 10.0),
            Seen::Modify(0, 10.0, 20.0, false),
            Seen::Modify(0, 10.0, 30.0, false),
            Seen::Modify(0, 10.0, 30.0, true),
        ]
    );
}

#[test]
fn checkpoint_repeats_the_last_fact_if_there_is_one() {
    let seen = Arc::new(Mutex::new(vec![]));
    let mut model: Model<f32> = Model::new();
    model.add_view(Recorder::boxed(&seen, false));
    take(&seen);
    model.process_event(Event::Checkpoint);
    assert_eq!(take(&seen), vec![]);
    model.process_event(Event::Add { guid: None, config: arrow(10.0) });
    model.process_event(Event::Checkpoint);
    assert_eq!(take(&seen), vec![Seen::Add(0, 10.0), Seen::Add(0, 10.0)]);
}

#[test]
fn undo_and_redo_tell_what_they_change() {
    let seen = Arc::new(Mutex::new(vec![]));
    let mut model: Model<f32> = Model::new();
    model.add_view(Recorder::boxed(&seen, false));
    model.process_event(Event::Add { guid: None, config: arrow(10.0) });
    model.process_event(Event::Modify { guid: 0, config: move_end(20.0) });
    model.process_event(Event::Checkpoint);
    take(&seen);

    model.undo();
    assert_eq!(take(&seen), vec![Seen::Modify(0, 20.0, 10.0, false)]);
    model.undo();
    assert_eq!(take(&seen), vec![Seen::Remove(0, 10.0)]);
    model.undo();
    assert_eq!(take(&seen), vec![]);
    model.redo();
    assert_eq!(take(&seen), vec![Seen::Add(0, 10.0)]);
    model.redo();
    assert_eq!(take(&seen), vec![Seen::Modify(0, 10.0, 20.0, false)]);
    model.redo();
    assert_eq!(take(&seen), vec![]);

    assert_eq!(model.history().len(), 2);
    match &model.history()[1] {
        EventHistory::Modify { from, to, committed, .. } => {
            assert_eq!(from.end.x, 10.0);
            assert_eq!(to.end.x, 20.0);
            assert!(*committed);
        }
        other => panic!("not a modification: {:?}", other),
    }
}

#[test]
fn every_view_is_told_in_turn() {
    let first = Arc::new(Mutex::new(vec![]));
    let second = Arc::new(Mutex::new(vec![]));
    let mut model: Model<f32> = Model::new();
    model.add_view(Recorder::boxed(&first, false));
    model.add_view(Recorder::boxed(&second, true));
    model.add_view(Box::new(UrlView::new()));
    take(&first);
    take(&second);
    model.process_event(Event::Add { guid: None, config: arrow(10.0) });
    assert_eq!(take(&first), vec![Seen::Add(0, 10.0)]);
    assert_eq!(take(&second), vec![Seen::Add(0, 10.0)]);
}

#[test]
fn reload_views_sends_every_shape_to_every_view() {
    let first = Arc::new(Mutex::new(vec![]));
    let second = Arc::new(Mutex::new(vec![]));
    let mut model: Model<f32> = Model::new();
    model.add_view(Recorder::boxed(&first, false));
    model.add_view(Recorder::boxed(&second, false));
    model.process_event(Event::Add { guid: None, config: arrow(10.0) });
    model.process_event(Event::Add { guid: None, config: arrow(20.0) });
    model.process_event(Event::Add { guid: None, config: arrow(30.0) });
    model.process_event(Event::Remove { guid: 1 });
    take(&first);
    take(&second);

    model.reload_views();
    let expected = vec![Seen::Reload(vec![(0, 10.0), (2, 30.0)])];
    assert_eq!(take(&first), expected);
    assert_eq!(take(&second), expected);
    assert_eq!(model.history().len(), 4);
}

#[test]
fn model_with_one_kind_of_view() {
    let mut model: Model<i64, UrlView> = Model::new();
    model.add_view(UrlView::new());
    let config = ShapeConfig {
        start: Point { x: 0, y: 0 },
        end: Point { x: 10, y: 10 },
        details: ShapeDetails::Arrow(ArrowDetails::default()),
        options: Options::default(),
    };
    assert_eq!(model.process_event(Event::Add { guid: None, config: config.clone() }), Some(0));
    assert_eq!(*model.get_shape(0).unwrap(), config);
}

struct Tagged {
    tag: u8,
    order: Arc<Mutex<Vec<u8>>>,
}

impl View<f32> for Tagged {
    fn process_event(&mut self, _event: commitcanvas::view::Event<f32>) -> Result<(), ViewError> {
        self.order.lock().unwrap().push(self.tag);
        Ok(())
    }
}

#[test]
fn views_are_told_in_the_order_of_registration() {
    let order = Arc::new(Mutex::new(vec![]));
    let mut model: Model<f32, Tagged> = Model::new();
    for tag in [7, 3, 5] {
        model.add_view(Tagged { tag, order: order.clone() });
    }
    assert_eq!(std::mem::take(&mut *order.lock().unwrap()), vec![7, 3, 5]);
    model.process_event(Event::Add { guid: None, config: arrow(10.0) });
    assert_eq!(std::mem::take(&mut *order.lock().unwrap()), vec![7, 3, 5]);
    model.undo();
    assert_eq!(std::mem::take(&mut *order.lock().unwrap()), vec![7, 3, 5]);
    model.redo();
    assert_eq!(std::mem::take(&mut *order.lock().unwrap()), vec![7, 3, 5]);
    model.reload_views();
    assert_eq!(std::mem::take(&mut *order.lock().unwrap()), vec![7, 3, 5]);
    model.process_event(Event::Remove { guid: 42 });
    assert_eq!(std::mem::take(&mut *order.lock().unwrap()), Vec::<u8>::new());
}

#[test]
fn registry_hands_a_message_to_one_view() {
    let order = Arc::new(Mutex::new(vec![]));
    let mut registry: commitcanvas::view::Registry<f32, Tagged> =
        commitcanvas::view::Registry::new();
    assert_eq!(registry.len(), 0);
    registry.register(Tagged { tag: 1, order: order.clone() });
    registry.register(Tagged { tag: 2, order: order.clone() });
    assert_eq!(registry.len(), 2);
    assert!(order.lock().unwrap().is_empty());
    registry.deliver(1, commitcanvas::view::Event::Reload { shapes: vec![] });
    registry.deliver(0, commitcanvas::view::Event::Reload { shapes: vec![] });
    registry.deliver(1, commitcanvas::view::Event::Reload { shapes: vec![] });
    assert_eq!(*order.lock().unwrap(), vec![2, 1, 2]);
}

#[test]
fn boxed_view_answers_as_the_view_in_it() {
    let seen = Arc::new(Mutex::new(vec![]));
    let mut failing: Box<dyn View<f32>> = Recorder::boxed(&seen, true);
    let mut working: Box<dyn View<f32>> = Recorder::boxed(&seen, false);
    let mut silent: Box<dyn View<f32>> = Box::new(UrlView::new());

    let fact = |end: f32| commitcanvas::view::Event::Modify {
        event: EventHistory::Add { guid: 0, config: arrow(end) },
    };
    let answer = failing.process_event(fact(1.0));
    assert_eq!(answer.unwrap_err().message, "cannot draw");
    assert!(working.process_event(fact(2.0)).is_ok());
    assert!(silent.process_event(fact(3.0)).is_ok());
    assert_eq!(take(&seen), vec![Seen::Add(0, 1.0), Seen::Add(0, 2.0)]);
}
