//! Streaming core of a sensor data logger: host start/stop supervision over
//! USB vendor control requests, a single-waiter change notification, and the
//! decision logic of the task that drains the sensor FIFO to a bulk endpoint.
pub mod control;
pub mod gate;
pub mod pump;
pub mod usb;
