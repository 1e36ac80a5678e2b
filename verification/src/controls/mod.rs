pub mod cameracontroller;
