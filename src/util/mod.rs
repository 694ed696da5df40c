pub mod audio_ring_buffer;
